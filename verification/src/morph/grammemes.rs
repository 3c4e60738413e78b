//! Grammemes of the morphological analyzer and their OpenCorpora codes.
use vstd::prelude::*;

use crate::text::{str_eq, string_views};

verus! {

/// Part of speech.
#[derive(Debug, Clone, Copy, PartialEq, Eq, Structural, Hash)]
pub enum ParteSpeech {
    /// `NOUN`
    Noun,
    /// `ADJF`
    AdjectiveFull,
    /// `ADJS`
    AdjectiveShort,
    /// `COMP`
    Comparative,
    /// `VERB`
    Verb,
    /// `INFN`
    Infinitive,
    /// `PRTF`
    ParticipleFull,
    /// `PRTS`
    ParticipleShort,
    /// `GRND`
    Gerundive,
    /// `NUMR`
    Number,
    /// `ADVB`
    Adverb,
    /// `NPRO`
    NounPronoun,
    /// `PRED`
    Predicative,
    /// `PREP`
    Preposition,
    /// `CONJ`
    Conjunction,
    /// `PRCL`
    Particle,
    /// `INTJ`
    Interjection,
}

/// Animacy.
#[derive(Debug, Clone, Copy, PartialEq, Eq, Structural, Hash)]
pub enum Animacy {
    /// `anim`
    Animate,
    /// `inan`
    Inanimate,
    /// `Inmx`
    Both,
}

/// Aspect of a verb: perfective or imperfective.
#[derive(Debug, Clone, Copy, PartialEq, Eq, Structural, Hash)]
pub enum Aspect {
    /// `perf`
    Perfetto,
    /// `impf`
    Imperfetto,
}

/// Grammatical case.
#[derive(Debug, Clone, Copy, PartialEq, Eq, Structural, Hash)]
pub enum Case {
    /// `Fixd`
    Fixed,
    /// `nomn`
    Nominativus,
    /// `gent`
    Genetivus,
    /// `datv`
    Dativus,
    /// `accs`
    Accusativus,
    /// `ablt`
    Ablativus,
    /// `loct`
    Locativus,
    /// `voct`
    Vocativus,
    /// `gen2`
    Gen2,
    /// `acc2`
    Acc2,
    /// `loc2`
    Loc2,
}

/// Gender.
#[derive(Debug, Clone, Copy, PartialEq, Eq, Structural, Hash)]
pub enum Gender {
    /// `masc`
    Masculine,
    /// `femn`
    Feminine,
    /// `neut`
    Neutral,
    /// `ms-f`
    Common,
    /// `Ms-f`
    CommonWavering,
    /// `GNdr`
    GenderNeutral,
}

/// Involvement of the speaker in the action.
#[derive(Debug, Clone, Copy, PartialEq, Eq, Structural, Hash)]
pub enum Involvement {
    /// `incl`
    Incluso,
    /// `excl`
    Excluso,
}

/// Mood: indicative or imperative.
#[derive(Debug, Clone, Copy, PartialEq, Eq, Structural, Hash)]
pub enum Mood {
    /// `indc`
    Indicativo,
    /// `impr`
    Imperativo,
}

/// Grammatical number.
#[derive(Debug, Clone, Copy, PartialEq, Eq, Structural, Hash)]
pub enum Number {
    /// `sing`
    Singular,
    /// `plur`
    Plural,
    /// `Sgtm`
    SingulariaTantum,
    /// `Pltm`
    PluraliaTantum,
}

/// Transitivity of a verb.
#[derive(Debug, Clone, Copy, PartialEq, Eq, Structural, Hash)]
pub enum Transitivity {
    /// `tran`
    Transitive,
    /// `intr`
    Intransitive,
}

/// Tense.
#[derive(Debug, Clone, Copy, PartialEq, Eq, Structural, Hash)]
pub enum Tense {
    /// `past`
    Past,
    /// `pres`
    Present,
    /// `futr`
    Future,
}

/// Voice.
#[derive(Debug, Clone, Copy, PartialEq, Eq, Structural, Hash)]
pub enum Voice {
    /// `actv`
    Active,
    /// `pssv`
    Passive,
}

/// Person.
#[derive(Debug, Clone, Copy, PartialEq, Eq, Structural, Hash)]
pub enum Person {
    /// `1per`
    First,
    /// `2per`
    Second,
    /// `3per`
    Third,
    /// `Impe`
    Impersonal,
    /// `Impx`
    PossibleImpersonal,
}

/// Other grammemes: kinds of names, style marks, variant forms.
#[derive(Debug, Clone, Copy, PartialEq, Eq, Structural, Hash)]
pub enum Other {
    /// `Abbr`
    Abbreviation,
    /// `Name`
    Name,
    /// `Surn`
    Surname,
    /// `Patr`
    Patronymic,
    /// `Geox`
    Geography,
    /// `Orgn`
    Organization,
    /// `Trad`
    Trademark,
    /// `Subx`
    PossibleSubstantive,
    /// `Supr`
    Superior,
    /// `Qual`
    Quality,
    /// `Apro`
    Pronominal,
    /// `Anum`
    Ordinal,
    /// `Poss`
    Possessive,
    /// `Ques`
    Questionable,
    /// `Dmns`
    Demonstrative,
    /// `Anph`
    Anaphoric,
    /// `Cmp2`
    Comparative,
    /// `V-ey`
    FormEY,
    /// `V-oy`
    FormOY,
    /// `V-ej`
    FormEJ,
    /// `V-be`
    FormBE,
    /// `V-en`
    FormENEN,
    /// `V-ie`
    FormIE,
    /// `V-bi`
    FormBI,
    /// `V-sh`
    ParticipleSH,
    /// `Mult`
    Multiple,
    /// `Refl`
    Reflessivo,
    /// `Infr`
    Spoken,
    /// `Slng`
    Slang,
    /// `Arch`
    Archaic,
    /// `Litr`
    Literary,
    /// `Erro`
    Error,
    /// `Dist`
    Distortion,
    /// `Prnt`
    Parenthesis,
    /// `Fimp`
    ImperfectiveParticiple,
    /// `Prdx`
    PossiblePredicative,
    /// `Coun`
    Countable,
    /// `Coll`
    Collection,
    /// `Af-p`
    AfterPreposition,
    /// `Vpre`
    PrepositionVariant,
    /// `Init`
    Initial,
    /// `Adjx`
    PossibleAdjective,
    /// `Hypo`
    Hypothetical,
    /// `Other`
    Other,
}

/// A grammeme, by category.
#[derive(Debug, Clone, Copy, PartialEq, Eq, Structural, Hash)]
pub enum Grammeme {
    /// A part of speech.
    ParteSpeech(ParteSpeech),
    /// An animacy.
    Animacy(Animacy),
    /// An aspect.
    Aspect(Aspect),
    /// A case.
    Case(Case),
    /// A gender.
    Gender(Gender),
    /// An involvement.
    Involvement(Involvement),
    /// A mood.
    Mood(Mood),
    /// A number.
    Number(Number),
    /// A transitivity.
    Trans(Transitivity),
    /// A tense.
    Tense(Tense),
    /// A voice.
    Voice(Voice),
    /// A person.
    Person(Person),
    /// Any other grammeme.
    Other(Other),
}

/// The OpenCorpora code of a grammeme.
pub open spec fn grammem_code(g: Grammeme) -> Seq<char> {
    match g {
        Grammeme::ParteSpeech(x) => match x {
            ParteSpeech::Noun => "NOUN"@,
            ParteSpeech::AdjectiveFull => "ADJF"@,
            ParteSpeech::AdjectiveShort => "ADJS"@,
            ParteSpeech::Comparative => "COMP"@,
            ParteSpeech::Verb => "VERB"@,
            ParteSpeech::Infinitive => "INFN"@,
            ParteSpeech::ParticipleFull => "PRTF"@,
            ParteSpeech::ParticipleShort => "PRTS"@,
            ParteSpeech::Gerundive => "GRND"@,
            ParteSpeech::Number => "NUMR"@,
            ParteSpeech::Adverb => "ADVB"@,
            ParteSpeech::NounPronoun => "NPRO"@,
            ParteSpeech::Predicative => "PRED"@,
            ParteSpeech::Preposition => "PREP"@,
            ParteSpeech::Conjunction => "CONJ"@,
            ParteSpeech::Particle => "PRCL"@,
            ParteSpeech::Interjection => "INTJ"@,
        },
        Grammeme::Animacy(x) => match x {
            Animacy::Animate => "anim"@,
            Animacy::Inanimate => "inan"@,
            Animacy::Both => "Inmx"@,
        },
        Grammeme::Aspect(x) => match x {
            Aspect::Perfetto => "perf"@,
            Aspect::Imperfetto => "impf"@,
        },
        Grammeme::Case(x) => match x {
            Case::Fixed => "Fixd"@,
            Case::Nominativus => "nomn"@,
            Case::Genetivus => "gent"@,
            Case::Dativus => "datv"@,
            Case::Accusativus => "accs"@,
            Case::Ablativus => "ablt"@,
            Case::Locativus => "loct"@,
            Case::Vocativus => "voct"@,
            Case::Gen2 => "gen2"@,
            Case::Acc2 => "acc2"@,
            Case::Loc2 => "loc2"@,
        },
        Grammeme::Gender(x) => match x {
            Gender::Masculine => "masc"@,
            Gender::Feminine => "femn"@,
            Gender::Neutral => "neut"@,
            Gender::Common => "ms-f"@,
            Gender::CommonWavering => "Ms-f"@,
            Gender::GenderNeutral => "GNdr"@,
        },
        Grammeme::Involvement(x) => match x {
            Involvement::Incluso => "incl"@,
            Involvement::Excluso => "excl"@,
        },
        Grammeme::Mood(x) => match x {
            Mood::Indicativo => "indc"@,
            Mood::Imperativo => "impr"@,
        },
        Grammeme::Number(x) => match x {
            Number::Singular => "sing"@,
            Number::Plural => "plur"@,
            Number::SingulariaTantum => "Sgtm"@,
            Number::PluraliaTantum => "Pltm"@,
        },
        Grammeme::Trans(x) => match x {
            Transitivity::Transitive => "tran"@,
            Transitivity::Intransitive => "intr"@,
        },
        Grammeme::Tense(x) => match x {
            Tense::Past => "past"@,
            Tense::Present => "pres"@,
            Tense::Future => "futr"@,
        },
        Grammeme::Voice(x) => match x {
            Voice::Active => "actv"@,
            Voice::Passive => "pssv"@,
        },
        Grammeme::Person(x) => match x {
            Person::First => "1per"@,
            Person::Second => "2per"@,
            Person::Third => "3per"@,
            Person::Impersonal => "Impe"@,
            Person::PossibleImpersonal => "Impx"@,
        },
        Grammeme::Other(x) => match x {
            Other::Abbreviation => "Abbr"@,
            Other::Name => "Name"@,
            Other::Surname => "Surn"@,
            Other::Patronymic => "Patr"@,
            Other::Geography => "Geox"@,
            Other::Organization => "Orgn"@,
            Other::Trademark => "Trad"@,
            Other::PossibleSubstantive => "Subx"@,
            Other::Superior => "Supr"@,
            Other::Quality => "Qual"@,
            Other::Pronominal => "Apro"@,
            Other::Ordinal => "Anum"@,
            Other::Possessive => "Poss"@,
            Other::Questionable => "Ques"@,
            Other::Demonstrative => "Dmns"@,
            Other::Anaphoric => "Anph"@,
            Other::Comparative => "Cmp2"@,
            Other::FormEY => "V-ey"@,
            Other::FormOY => "V-oy"@,
            Other::FormEJ => "V-ej"@,
            Other::FormBE => "V-be"@,
            Other::FormENEN => "V-en"@,
            Other::FormIE => "V-ie"@,
            Other::FormBI => "V-bi"@,
            Other::ParticipleSH => "V-sh"@,
            Other::Multiple => "Mult"@,
            Other::Reflessivo => "Refl"@,
            Other::Spoken => "Infr"@,
            Other::Slang => "Slng"@,
            Other::Archaic => "Arch"@,
            Other::Literary => "Litr"@,
            Other::Error => "Erro"@,
            Other::Distortion => "Dist"@,
            Other::Parenthesis => "Prnt"@,
            Other::ImperfectiveParticiple => "Fimp"@,
            Other::PossiblePredicative => "Prdx"@,
            Other::Countable => "Coun"@,
            Other::Collection => "Coll"@,
            Other::AfterPreposition => "Af-p"@,
            Other::PrepositionVariant => "Vpre"@,
            Other::Initial => "Init"@,
            Other::PossibleAdjective => "Adjx"@,
            Other::Hypothetical => "Hypo"@,
            Other::Other => "Other"@,
        },
    }
}

/// The grammeme written as the code `s`, if any; `Other::Other` is written as no code.
pub open spec fn grammem_of_code(s: Seq<char>) -> Option<Grammeme> {
    if s == "NOUN"@ {
        Some(Grammeme::ParteSpeech(ParteSpeech::Noun))
    } else if s == "ADJF"@ {
        Some(Grammeme::ParteSpeech(ParteSpeech::AdjectiveFull))
    } else if s == "ADJS"@ {
        Some(Grammeme::ParteSpeech(ParteSpeech::AdjectiveShort))
    } else if s == "COMP"@ {
        Some(Grammeme::ParteSpeech(ParteSpeech::Comparative))
    } else if s == "VERB"@ {
        Some(Grammeme::ParteSpeech(ParteSpeech::Verb))
    } else if s == "INFN"@ {
        Some(Grammeme::ParteSpeech(ParteSpeech::Infinitive))
    } else if s == "PRTF"@ {
        Some(Grammeme::ParteSpeech(ParteSpeech::ParticipleFull))
    } else if s == "PRTS"@ {
        Some(Grammeme::ParteSpeech(ParteSpeech::ParticipleShort))
    } else if s == "GRND"@ {
        Some(Grammeme::ParteSpeech(ParteSpeech::Gerundive))
    } else if s == "NUMR"@ {
        Some(Grammeme::ParteSpeech(ParteSpeech::Number))
    } else if s == "ADVB"@ {
        Some(Grammeme::ParteSpeech(ParteSpeech::Adverb))
    } else if s == "NPRO"@ {
        Some(Grammeme::ParteSpeech(ParteSpeech::NounPronoun))
    } else if s == "PRED"@ {
        Some(Grammeme::ParteSpeech(ParteSpeech::Predicative))
    } else if s == "PREP"@ {
        Some(Grammeme::ParteSpeech(ParteSpeech::Preposition))
    } else if s == "CONJ"@ {
        Some(Grammeme::ParteSpeech(ParteSpeech::Conjunction))
    } else if s == "PRCL"@ {
        Some(Grammeme::ParteSpeech(ParteSpeech::Particle))
    } else if s == "INTJ"@ {
        Some(Grammeme::ParteSpeech(ParteSpeech::Interjection))
    } else if s == "anim"@ {
        Some(Grammeme::Animacy(Animacy::Animate))
    } else if s == "inan"@ {
        Some(Grammeme::Animacy(Animacy::Inanimate))
    } else if s == "Inmx"@ {
        Some(Grammeme::Animacy(Animacy::Both))
    } else if s == "perf"@ {
        Some(Grammeme::Aspect(Aspect::Perfetto))
    } else if s == "impf"@ {
        Some(Grammeme::Aspect(Aspect::Imperfetto))
    } else if s == "Fixd"@ {
        Some(Grammeme::Case(Case::Fixed))
    } else if s == "nomn"@ {
        Some(Grammeme::Case(Case::Nominativus))
    } else if s == "gent"@ {
        Some(Grammeme::Case(Case::Genetivus))
    } else if s == "datv"@ {
        Some(Grammeme::Case(Case::Dativus))
    } else if s == "accs"@ {
        Some(Grammeme::Case(Case::Accusativus))
    } else if s == "ablt"@ {
        Some(Grammeme::Case(Case::Ablativus))
    } else if s == "loct"@ {
        Some(Grammeme::Case(Case::Locativus))
    } else if s == "voct"@ {
        Some(Grammeme::Case(Case::Vocativus))
    } else if s == "gen2"@ {
        Some(Grammeme::Case(Case::Gen2))
    } else if s == "acc2"@ {
        Some(Grammeme::Case(Case::Acc2))
    } else if s == "loc2"@ {
        Some(Grammeme::Case(Case::Loc2))
    } else if s == "masc"@ {
        Some(Grammeme::Gender(Gender::Masculine))
    } else if s == "femn"@ {
        Some(Grammeme::Gender(Gender::Feminine))
    } else if s == "neut"@ {
        Some(Grammeme::Gender(Gender::Neutral))
    } else if s == "ms-f"@ {
        Some(Grammeme::Gender(Gender::Common))
    } else if s == "Ms-f"@ {
        Some(Grammeme::Gender(Gender::CommonWavering))
    } else if s == "GNdr"@ {
        Some(Grammeme::Gender(Gender::GenderNeutral))
    } else if s == "incl"@ {
        Some(Grammeme::Involvement(Involvement::Incluso))
    } else if s == "excl"@ {
        Some(Grammeme::Involvement(Involvement::Excluso))
    } else if s == "indc"@ {
        Some(Grammeme::Mood(Mood::Indicativo))
    } else if s == "impr"@ {
        Some(Grammeme::Mood(Mood::Imperativo))
    } else if s == "sing"@ {
        Some(Grammeme::Number(Number::Singular))
    } else if s == "plur"@ {
        Some(Grammeme::Number(Number::Plural))
    } else if s == "Sgtm"@ {
        Some(Grammeme::Number(Number::SingulariaTantum))
    } else if s == "Pltm"@ {
        Some(Grammeme::Number(Number::PluraliaTantum))
    } else if s == "tran"@ {
        Some(Grammeme::Trans(Transitivity::Transitive))
    } else if s == "intr"@ {
        Some(Grammeme::Trans(Transitivity::Intransitive))
    } else if s == "past"@ {
        Some(Grammeme::Tense(Tense::Past))
    } else if s == "pres"@ {
        Some(Grammeme::Tense(Tense::Present))
    } else if s == "futr"@ {
        Some(Grammeme::Tense(Tense::Future))
    } else if s == "actv"@ {
        Some(Grammeme::Voice(Voice::Active))
    } else if s == "pssv"@ {
        Some(Grammeme::Voice(Voice::Passive))
    } else if s == "1per"@ {
        Some(Grammeme::Person(Person::First))
    } else if s == "2per"@ {
        Some(Grammeme::Person(Person::Second))
    } else if s == "3per"@ {
        Some(Grammeme::Person(Person::Third))
    } else if s == "Impe"@ {
        Some(Grammeme::Person(Person::Impersonal))
    } else if s == "Impx"@ {
        Some(Grammeme::Person(Person::PossibleImpersonal))
    } else if s == "Abbr"@ {
        Some(Grammeme::Other(Other::Abbreviation))
    } else if s == "Name"@ {
        Some(Grammeme::Other(Other::Name))
    } else if s == "Surn"@ {
        Some(Grammeme::Other(Other::Surname))
    } else if s == "Patr"@ {
        Some(Grammeme::Other(Other::Patronymic))
    } else if s == "Geox"@ {
        Some(Grammeme::Other(Other::Geography))
    } else if s == "Orgn"@ {
        Some(Grammeme::Other(Other::Organization))
    } else if s == "Trad"@ {
        Some(Grammeme::Other(Other::Trademark))
    } else if s == "Subx"@ {
        Some(Grammeme::Other(Other::PossibleSubstantive))
    } else if s == "Supr"@ {
        Some(Grammeme::Other(Other::Superior))
    } else if s == "Qual"@ {
        Some(Grammeme::Other(Other::Quality))
    } else if s == "Apro"@ {
        Some(Grammeme::Other(Other::Pronominal))
    } else if s == "Anum"@ {
        Some(Grammeme::Other(Other::Ordinal))
    } else if s == "Poss"@ {
        Some(Grammeme::Other(Other::Possessive))
    } else if s == "Ques"@ {
        Some(Grammeme::Other(Other::Questionable))
    } else if s == "Dmns"@ {
        Some(Grammeme::Other(Other::Demonstrative))
    } else if s == "Anph"@ {
        Some(Grammeme::Other(Other::Anaphoric))
    } else if s == "Cmp2"@ {
        Some(Grammeme::Other(Other::Comparative))
    } else if s == "V-ey"@ {
        Some(Grammeme::Other(Other::FormEY))
    } else if s == "V-oy"@ {
        Some(Grammeme::Other(Other::FormOY))
    } else if s == "V-ej"@ {
        Some(Grammeme::Other(Other::FormEJ))
    } else if s == "V-be"@ {
        Some(Grammeme::Other(Other::FormBE))
    } else if s == "V-en"@ {
        Some(Grammeme::Other(Other::FormENEN))
    } else if s == "V-ie"@ {
        Some(Grammeme::Other(Other::FormIE))
    } else if s == "V-bi"@ {
        Some(Grammeme::Other(Other::FormBI))
    } else if s == "V-sh"@ {
        Some(Grammeme::Other(Other::ParticipleSH))
    } else if s == "Mult"@ {
        Some(Grammeme::Other(Other::Multiple))
    } else if s == "Refl"@ {
        Some(Grammeme::Other(Other::Reflessivo))
    } else if s == "Infr"@ {
        Some(Grammeme::Other(Other::Spoken))
    } else if s == "Slng"@ {
        Some(Grammeme::Other(Other::Slang))
    } else if s == "Arch"@ {
        Some(Grammeme::Other(Other::Archaic))
    } else if s == "Litr"@ {
        Some(Grammeme::Other(Other::Literary))
    } else if s == "Erro"@ {
        Some(Grammeme::Other(Other::Error))
    } else if s == "Dist"@ {
        Some(Grammeme::Other(Other::Distortion))
    } else if s == "Prnt"@ {
        Some(Grammeme::Other(Other::Parenthesis))
    } else if s == "Fimp"@ {
        Some(Grammeme::Other(Other::ImperfectiveParticiple))
    } else if s == "Prdx"@ {
        Some(Grammeme::Other(Other::PossiblePredicative))
    } else if s == "Coun"@ {
        Some(Grammeme::Other(Other::Countable))
    } else if s == "Coll"@ {
        Some(Grammeme::Other(Other::Collection))
    } else if s == "Af-p"@ {
        Some(Grammeme::Other(Other::AfterPreposition))
    } else if s == "Vpre"@ {
        Some(Grammeme::Other(Other::PrepositionVariant))
    } else if s == "Init"@ {
        Some(Grammeme::Other(Other::Initial))
    } else if s == "Adjx"@ {
        Some(Grammeme::Other(Other::PossibleAdjective))
    } else if s == "Hypo"@ {
        Some(Grammeme::Other(Other::Hypothetical))
    } else {
        None
    }
}

/// The OpenCorpora code of a grammeme, e.g. `"nomn"` or `"NOUN"`.
pub fn grammem_to_opencorpora(g: &Grammeme) -> (r: &'static str)
    ensures
        r@ == grammem_code(*g),
{
    match *g {
        Grammeme::ParteSpeech(x) => match x {
            ParteSpeech::Noun => "NOUN",
            ParteSpeech::AdjectiveFull => "ADJF",
            ParteSpeech::AdjectiveShort => "ADJS",
            ParteSpeech::Comparative => "COMP",
            ParteSpeech::Verb => "VERB",
            ParteSpeech::Infinitive => "INFN",
            ParteSpeech::ParticipleFull => "PRTF",
            ParteSpeech::ParticipleShort => "PRTS",
            ParteSpeech::Gerundive => "GRND",
            ParteSpeech::Number => "NUMR",
            ParteSpeech::Adverb => "ADVB",
            ParteSpeech::NounPronoun => "NPRO",
            ParteSpeech::Predicative => "PRED",
            ParteSpeech::Preposition => "PREP",
            ParteSpeech::Conjunction => "CONJ",
            ParteSpeech::Particle => "PRCL",
            ParteSpeech::Interjection => "INTJ",
        },
        Grammeme::Animacy(x) => match x {
            Animacy::Animate => "anim",
            Animacy::Inanimate => "inan",
            Animacy::Both => "Inmx",
        },
        Grammeme::Aspect(x) => match x {
            Aspect::Perfetto => "perf",
            Aspect::Imperfetto => "impf",
        },
        Grammeme::Case(x) => match x {
            Case::Fixed => "Fixd",
            Case::Nominativus => "nomn",
            Case::Genetivus => "gent",
            Case::Dativus => "datv",
            Case::Accusativus => "accs",
            Case::Ablativus => "ablt",
            Case::Locativus => "loct",
            Case::Vocativus => "voct",
            Case::Gen2 => "gen2",
            Case::Acc2 => "acc2",
            Case::Loc2 => "loc2",
        },
        Grammeme::Gender(x) => match x {
            Gender::Masculine => "masc",
            Gender::Feminine => "femn",
            Gender::Neutral => "neut",
            Gender::Common => "ms-f",
            Gender::CommonWavering => "Ms-f",
            Gender::GenderNeutral => "GNdr",
        },
        Grammeme::Involvement(x) => match x {
            Involvement::Incluso => "incl",
            Involvement::Excluso => "excl",
        },
        Grammeme::Mood(x) => match x {
            Mood::Indicativo => "indc",
            Mood::Imperativo => "impr",
        },
        Grammeme::Number(x) => match x {
            Number::Singular => "sing",
            Number::Plural => "plur",
            Number::SingulariaTantum => "Sgtm",
            Number::PluraliaTantum => "Pltm",
        },
        Grammeme::Trans(x) => match x {
            Transitivity::Transitive => "tran",
            Transitivity::Intransitive => "intr",
        },
        Grammeme::Tense(x) => match x {
            Tense::Past => "past",
            Tense::Present => "pres",
            Tense::Future => "futr",
        },
        Grammeme::Voice(x) => match x {
            Voice::Active => "actv",
            Voice::Passive => "pssv",
        },
        Grammeme::Person(x) => match x {
            Person::First => "1per",
            Person::Second => "2per",
            Person::Third => "3per",
            Person::Impersonal => "Impe",
            Person::PossibleImpersonal => "Impx",
        },
        Grammeme::Other(x) => match x {
            Other::Abbreviation => "Abbr",
            Other::Name => "Name",
            Other::Surname => "Surn",
            Other::Patronymic => "Patr",
            Other::Geography => "Geox",
            Other::Organization => "Orgn",
            Other::Trademark => "Trad",
            Other::PossibleSubstantive => "Subx",
            Other::Superior => "Supr",
            Other::Quality => "Qual",
            Other::Pronominal => "Apro",
            Other::Ordinal => "Anum",
            Other::Possessive => "Poss",
            Other::Questionable => "Ques",
            Other::Demonstrative => "Dmns",
            Other::Anaphoric => "Anph",
            Other::Comparative => "Cmp2",
            Other::FormEY => "V-ey",
            Other::FormOY => "V-oy",
            Other::FormEJ => "V-ej",
            Other::FormBE => "V-be",
            Other::FormENEN => "V-en",
            Other::FormIE => "V-ie",
            Other::FormBI => "V-bi",
            Other::ParticipleSH => "V-sh",
            Other::Multiple => "Mult",
            Other::Reflessivo => "Refl",
            Other::Spoken => "Infr",
            Other::Slang => "Slng",
            Other::Archaic => "Arch",
            Other::Literary => "Litr",
            Other::Error => "Erro",
            Other::Distortion => "Dist",
            Other::Parenthesis => "Prnt",
            Other::ImperfectiveParticiple => "Fimp",
            Other::PossiblePredicative => "Prdx",
            Other::Countable => "Coun",
            Other::Collection => "Coll",
            Other::AfterPreposition => "Af-p",
            Other::PrepositionVariant => "Vpre",
            Other::Initial => "Init",
            Other::PossibleAdjective => "Adjx",
            Other::Hypothetical => "Hypo",
            Other::Other => "Other",
        },
    }
}

/// The grammeme of an OpenCorpora code, `None` for an unknown code.
#[verifier::rlimit(40)]
pub fn opencorpora_to_grammem(s: &str) -> (r: Option<Grammeme>)
    ensures
        r == grammem_of_code(s@),
{
    if str_eq(s, "NOUN") {
        Some(Grammeme::ParteSpeech(ParteSpeech::Noun))
    } else if str_eq(s, "ADJF") {
        Some(Grammeme::ParteSpeech(ParteSpeech::AdjectiveFull))
    } else if str_eq(s, "ADJS") {
        Some(Grammeme::ParteSpeech(ParteSpeech::AdjectiveShort))
    } else if str_eq(s, "COMP") {
        Some(Grammeme::ParteSpeech(ParteSpeech::Comparative))
    } else if str_eq(s, "VERB") {
        Some(Grammeme::ParteSpeech(ParteSpeech::Verb))
    } else if str_eq(s, "INFN") {
        Some(Grammeme::ParteSpeech(ParteSpeech::Infinitive))
    } else if str_eq(s, "PRTF") {
        Some(Grammeme::ParteSpeech(ParteSpeech::ParticipleFull))
    } else if str_eq(s, "PRTS") {
        Some(Grammeme::ParteSpeech(ParteSpeech::ParticipleShort))
    } else if str_eq(s, "GRND") {
        Some(Grammeme::ParteSpeech(ParteSpeech::Gerundive))
    } else if str_eq(s, "NUMR") {
        Some(Grammeme::ParteSpeech(ParteSpeech::Number))
    } else if str_eq(s, "ADVB") {
        Some(Grammeme::ParteSpeech(ParteSpeech::Adverb))
    } else if str_eq(s, "NPRO") {
        Some(Grammeme::ParteSpeech(ParteSpeech::NounPronoun))
    } else if str_eq(s, "PRED") {
        Some(Grammeme::ParteSpeech(ParteSpeech::Predicative))
    } else if str_eq(s, "PREP") {
        Some(Grammeme::ParteSpeech(ParteSpeech::Preposition))
    } else if str_eq(s, "CONJ") {
        Some(Grammeme::ParteSpeech(ParteSpeech::Conjunction))
    } else if str_eq(s, "PRCL") {
        Some(Grammeme::ParteSpeech(ParteSpeech::Particle))
    } else if str_eq(s, "INTJ") {
        Some(Grammeme::ParteSpeech(ParteSpeech::Interjection))
    } else if str_eq(s, "anim") {
        Some(Grammeme::Animacy(Animacy::Animate))
    } else if str_eq(s, "inan") {
        Some(Grammeme::Animacy(Animacy::Inanimate))
    } else if str_eq(s, "Inmx") {
        Some(Grammeme::Animacy(Animacy::Both))
    } else if str_eq(s, "perf") {
        Some(Grammeme::Aspect(Aspect::Perfetto))
    } else if str_eq(s, "impf") {
        Some(Grammeme::Aspect(Aspect::Imperfetto))
    } else if str_eq(s, "Fixd") {
        Some(Grammeme::Case(Case::Fixed))
    } else if str_eq(s, "nomn") {
        Some(Grammeme::Case(Case::Nominativus))
    } else if str_eq(s, "gent") {
        Some(Grammeme::Case(Case::Genetivus))
    } else if str_eq(s, "datv") {
        Some(Grammeme::Case(Case::Dativus))
    } else if str_eq(s, "accs") {
        Some(Grammeme::Case(Case::Accusativus))
    } else if str_eq(s, "ablt") {
        Some(Grammeme::Case(Case::Ablativus))
    } else if str_eq(s, "loct") {
        Some(Grammeme::Case(Case::Locativus))
    } else if str_eq(s, "voct") {
        Some(Grammeme::Case(Case::Vocativus))
    } else if str_eq(s, "gen2") {
        Some(Grammeme::Case(Case::Gen2))
    } else if str_eq(s, "acc2") {
        Some(Grammeme::Case(Case::Acc2))
    } else if str_eq(s, "loc2") {
        Some(Grammeme::Case(Case::Loc2))
    } else if str_eq(s, "masc") {
        Some(Grammeme::Gender(Gender::Masculine))
    } else if str_eq(s, "femn") {
        Some(Grammeme::Gender(Gender::Feminine))
    } else if str_eq(s, "neut") {
        Some(Grammeme::Gender(Gender::Neutral))
    } else if str_eq(s, "ms-f") {
        Some(Grammeme::Gender(Gender::Common))
    } else if str_eq(s, "Ms-f") {
        Some(Grammeme::Gender(Gender::CommonWavering))
    } else if str_eq(s, "GNdr") {
        Some(Grammeme::Gender(Gender::GenderNeutral))
    } else if str_eq(s, "incl") {
        Some(Grammeme::Involvement(Involvement::Incluso))
    } else if str_eq(s, "excl") {
        Some(Grammeme::Involvement(Involvement::Excluso))
    } else if str_eq(s, "indc") {
        Some(Grammeme::Mood(Mood::Indicativo))
    } else if str_eq(s, "impr") {
        Some(Grammeme::Mood(Mood::Imperativo))
    } else if str_eq(s, "sing") {
        Some(Grammeme::Number(Number::Singular))
    } else if str_eq(s, "plur") {
        Some(Grammeme::Number(Number::Plural))
    } else if str_eq(s, "Sgtm") {
        Some(Grammeme::Number(Number::SingulariaTantum))
    } else if str_eq(s, "Pltm") {
        Some(Grammeme::Number(Number::PluraliaTantum))
    } else if str_eq(s, "tran") {
        Some(Grammeme::Trans(Transitivity::Transitive))
    } else if str_eq(s, "intr") {
        Some(Grammeme::Trans(Transitivity::Intransitive))
    } else if str_eq(s, "past") {
        Some(Grammeme::Tense(Tense::Past))
    } else if str_eq(s, "pres") {
        Some(Grammeme::Tense(Tense::Present))
    } else if str_eq(s, "futr") {
        Some(Grammeme::Tense(Tense::Future))
    } else if str_eq(s, "actv") {
        Some(Grammeme::Voice(Voice::Active))
    } else if str_eq(s, "pssv") {
        Some(Grammeme::Voice(Voice::Passive))
    } else if str_eq(s, "1per") {
        Some(Grammeme::Person(Person::First))
    } else if str_eq(s, "2per") {
        Some(Grammeme::Person(Person::Second))
    } else if str_eq(s, "3per") {
        Some(Grammeme::Person(Person::Third))
    } else if str_eq(s, "Impe") {
        Some(Grammeme::Person(Person::Impersonal))
    } else if str_eq(s, "Impx") {
        Some(Grammeme::Person(Person::PossibleImpersonal))
    } else if str_eq(s, "Abbr") {
        Some(Grammeme::Other(Other::Abbreviation))
    } else if str_eq(s, "Name") {
        Some(Grammeme::Other(Other::Name))
    } else if str_eq(s, "Surn") {
        Some(Grammeme::Other(Other::Surname))
    } else if str_eq(s, "Patr") {
        Some(Grammeme::Other(Other::Patronymic))
    } else if str_eq(s, "Geox") {
        Some(Grammeme::Other(Other::Geography))
    } else if str_eq(s, "Orgn") {
        Some(Grammeme::Other(Other::Organization))
    } else if str_eq(s, "Trad") {
        Some(Grammeme::Other(Other::Trademark))
    } else if str_eq(s, "Subx") {
        Some(Grammeme::Other(Other::PossibleSubstantive))
    } else if str_eq(s, "Supr") {
        Some(Grammeme::Other(Other::Superior))
    } else if str_eq(s, "Qual") {
        Some(Grammeme::Other(Other::Quality))
    } else if str_eq(s, "Apro") {
        Some(Grammeme::Other(Other::Pronominal))
    } else if str_eq(s, "Anum") {
        Some(Grammeme::Other(Other::Ordinal))
    } else if str_eq(s, "Poss") {
        Some(Grammeme::Other(Other::Possessive))
    } else if str_eq(s, "Ques") {
        Some(Grammeme::Other(Other::Questionable))
    } else if str_eq(s, "Dmns") {
        Some(Grammeme::Other(Other::Demonstrative))
    } else if str_eq(s, "Anph") {
        Some(Grammeme::Other(Other::Anaphoric))
    } else if str_eq(s, "Cmp2") {
        Some(Grammeme::Other(Other::Comparative))
    } else if str_eq(s, "V-ey") {
        Some(Grammeme::Other(Other::FormEY))
    } else if str_eq(s, "V-oy") {
        Some(Grammeme::Other(Other::FormOY))
    } else if str_eq(s, "V-ej") {
        Some(Grammeme::Other(Other::FormEJ))
    } else if str_eq(s, "V-be") {
        Some(Grammeme::Other(Other::FormBE))
    } else if str_eq(s, "V-en") {
        Some(Grammeme::Other(Other::FormENEN))
    } else if str_eq(s, "V-ie") {
        Some(Grammeme::Other(Other::FormIE))
    } else if str_eq(s, "V-bi") {
        Some(Grammeme::Other(Other::FormBI))
    } else if str_eq(s, "V-sh") {
        Some(Grammeme::Other(Other::ParticipleSH))
    } else if str_eq(s, "Mult") {
        Some(Grammeme::Other(Other::Multiple))
    } else if str_eq(s, "Refl") {
        Some(Grammeme::Other(Other::Reflessivo))
    } else if str_eq(s, "Infr") {
        Some(Grammeme::Other(Other::Spoken))
    } else if str_eq(s, "Slng") {
        Some(Grammeme::Other(Other::Slang))
    } else if str_eq(s, "Arch") {
        Some(Grammeme::Other(Other::Archaic))
    } else if str_eq(s, "Litr") {
        Some(Grammeme::Other(Other::Literary))
    } else if str_eq(s, "Erro") {
        Some(Grammeme::Other(Other::Error))
    } else if str_eq(s, "Dist") {
        Some(Grammeme::Other(Other::Distortion))
    } else if str_eq(s, "Prnt") {
        Some(Grammeme::Other(Other::Parenthesis))
    } else if str_eq(s, "Fimp") {
        Some(Grammeme::Other(Other::ImperfectiveParticiple))
    } else if str_eq(s, "Prdx") {
        Some(Grammeme::Other(Other::PossiblePredicative))
    } else if str_eq(s, "Coun") {
        Some(Grammeme::Other(Other::Countable))
    } else if str_eq(s, "Coll") {
        Some(Grammeme::Other(Other::Collection))
    } else if str_eq(s, "Af-p") {
        Some(Grammeme::Other(Other::AfterPreposition))
    } else if str_eq(s, "Vpre") {
        Some(Grammeme::Other(Other::PrepositionVariant))
    } else if str_eq(s, "Init") {
        Some(Grammeme::Other(Other::Initial))
    } else if str_eq(s, "Adjx") {
        Some(Grammeme::Other(Other::PossibleAdjective))
    } else if str_eq(s, "Hypo") {
        Some(Grammeme::Other(Other::Hypothetical))
    } else {
        None
    }
}

/// The characters of every code.
proof fn lemma_code_literals()
    ensures
        "NOUN"@.len() == 4 && "NOUN"@[0] == 'N' && "NOUN"@[1] == 'O' && "NOUN"@[2] == 'U' && "NOUN"@[3] == 'N',
        "ADJF"@.len() == 4 && "ADJF"@[0] == 'A' && "ADJF"@[1] == 'D' && "ADJF"@[2] == 'J' && "ADJF"@[3] == 'F',
        "ADJS"@.len() == 4 && "ADJS"@[0] == 'A' && "ADJS"@[1] == 'D' && "ADJS"@[2] == 'J' && "ADJS"@[3] == 'S',
        "COMP"@.len() == 4 && "COMP"@[0] == 'C' && "COMP"@[1] == 'O' && "COMP"@[2] == 'M' && "COMP"@[3] == 'P',
        "VERB"@.len() == 4 && "VERB"@[0] == 'V' && "VERB"@[1] == 'E' && "VERB"@[2] == 'R' && "VERB"@[3] == 'B',
        "INFN"@.len() == 4 && "INFN"@[0] == 'I' && "INFN"@[1] == 'N' && "INFN"@[2] == 'F' && "INFN"@[3] == 'N',
        "PRTF"@.len() == 4 && "PRTF"@[0] == 'P' && "PRTF"@[1] == 'R' && "PRTF"@[2] == 'T' && "PRTF"@[3] == 'F',
        "PRTS"@.len() == 4 && "PRTS"@[0] == 'P' && "PRTS"@[1] == 'R' && "PRTS"@[2] == 'T' && "PRTS"@[3] == 'S',
        "GRND"@.len() == 4 && "GRND"@[0] == 'G' && "GRND"@[1] == 'R' && "GRND"@[2] == 'N' && "GRND"@[3] == 'D',
        "NUMR"@.len() == 4 && "NUMR"@[0] == 'N' && "NUMR"@[1] == 'U' && "NUMR"@[2] == 'M' && "NUMR"@[3] == 'R',
        "ADVB"@.len() == 4 && "ADVB"@[0] == 'A' && "ADVB"@[1] == 'D' && "ADVB"@[2] == 'V' && "ADVB"@[3] == 'B',
        "NPRO"@.len() == 4 && "NPRO"@[0] == 'N' && "NPRO"@[1] == 'P' && "NPRO"@[2] == 'R' && "NPRO"@[3] == 'O',
        "PRED"@.len() == 4 && "PRED"@[0] == 'P' && "PRED"@[1] == 'R' && "PRED"@[2] == 'E' && "PRED"@[3] == 'D',
        "PREP"@.len() == 4 && "PREP"@[0] == 'P' && "PREP"@[1] == 'R' && "PREP"@[2] == 'E' && "PREP"@[3] == 'P',
        "CONJ"@.len() == 4 && "CONJ"@[0] == 'C' && "CONJ"@[1] == 'O' && "CONJ"@[2] == 'N' && "CONJ"@[3] == 'J',
        "PRCL"@.len() == 4 && "PRCL"@[0] == 'P' && "PRCL"@[1] == 'R' && "PRCL"@[2] == 'C' && "PRCL"@[3] == 'L',
        "INTJ"@.len() == 4 && "INTJ"@[0] == 'I' && "INTJ"@[1] == 'N' && "INTJ"@[2] == 'T' && "INTJ"@[3] == 'J',
        "anim"@.len() == 4 && "anim"@[0] == 'a' && "anim"@[1] == 'n' && "anim"@[2] == 'i' && "anim"@[3] == 'm',
        "inan"@.len() == 4 && "inan"@[0] == 'i' && "inan"@[1] == 'n' && "inan"@[2] == 'a' && "inan"@[3] == 'n',
        "Inmx"@.len() == 4 && "Inmx"@[0] == 'I' && "Inmx"@[1] == 'n' && "Inmx"@[2] == 'm' && "Inmx"@[3] == 'x',
        "perf"@.len() == 4 && "perf"@[0] == 'p' && "perf"@[1] == 'e' && "perf"@[2] == 'r' && "perf"@[3] == 'f',
        "impf"@.len() == 4 && "impf"@[0] == 'i' && "impf"@[1] == 'm' && "impf"@[2] == 'p' && "impf"@[3] == 'f',
        "Fixd"@.len() == 4 && "Fixd"@[0] == 'F' && "Fixd"@[1] == 'i' && "Fixd"@[2] == 'x' && "Fixd"@[3] == 'd',
        "nomn"@.len() == 4 && "nomn"@[0] == 'n' && "nomn"@[1] == 'o' && "nomn"@[2] == 'm' && "nomn"@[3] == 'n',
        "gent"@.len() == 4 && "gent"@[0] == 'g' && "gent"@[1] == 'e' && "gent"@[2] == 'n' && "gent"@[3] == 't',
        "datv"@.len() == 4 && "datv"@[0] == 'd' && "datv"@[1] == 'a' && "datv"@[2] == 't' && "datv"@[3] == 'v',
        "accs"@.len() == 4 && "accs"@[0] == 'a' && "accs"@[1] == 'c' && "accs"@[2] == 'c' && "accs"@[3] == 's',
        "ablt"@.len() == 4 && "ablt"@[0] == 'a' && "ablt"@[1] == 'b' && "ablt"@[2] == 'l' && "ablt"@[3] == 't',
        "loct"@.len() == 4 && "loct"@[0] == 'l' && "loct"@[1] == 'o' && "loct"@[2] == 'c' && "loct"@[3] == 't',
        "voct"@.len() == 4 && "voct"@[0] == 'v' && "voct"@[1] == 'o' && "voct"@[2] == 'c' && "voct"@[3] == 't',
        "gen2"@.len() == 4 && "gen2"@[0] == 'g' && "gen2"@[1] == 'e' && "gen2"@[2] == 'n' && "gen2"@[3] == '2',
        "acc2"@.len() == 4 && "acc2"@[0] == 'a' && "acc2"@[1] == 'c' && "acc2"@[2] == 'c' && "acc2"@[3] == '2',
        "loc2"@.len() == 4 && "loc2"@[0] == 'l' && "loc2"@[1] == 'o' && "loc2"@[2] == 'c' && "loc2"@[3] == '2',
        "masc"@.len() == 4 && "masc"@[0] == 'm' && "masc"@[1] == 'a' && "masc"@[2] == 's' && "masc"@[3] == 'c',
        "femn"@.len() == 4 && "femn"@[0] == 'f' && "femn"@[1] == 'e' && "femn"@[2] == 'm' && "femn"@[3] == 'n',
        "neut"@.len() == 4 && "neut"@[0] == 'n' && "neut"@[1] == 'e' && "neut"@[2] == 'u' && "neut"@[3] == 't',
        "ms-f"@.len() == 4 && "ms-f"@[0] == 'm' && "ms-f"@[1] == 's' && "ms-f"@[2] == '-' && "ms-f"@[3] == 'f',
        "Ms-f"@.len() == 4 && "Ms-f"@[0] == 'M' && "Ms-f"@[1] == 's' && "Ms-f"@[2] == '-' && "Ms-f"@[3] == 'f',
        "GNdr"@.len() == 4 && "GNdr"@[0] == 'G' && "GNdr"@[1] == 'N' && "GNdr"@[2] == 'd' && "GNdr"@[3] == 'r',
        "incl"@.len() == 4 && "incl"@[0] == 'i' && "incl"@[1] == 'n' && "incl"@[2] == 'c' && "incl"@[3] == 'l',
        "excl"@.len() == 4 && "excl"@[0] == 'e' && "excl"@[1] == 'x' && "excl"@[2] == 'c' && "excl"@[3] == 'l',
        "indc"@.len() == 4 && "indc"@[0] == 'i' && "indc"@[1] == 'n' && "indc"@[2] == 'd' && "indc"@[3] == 'c',
        "impr"@.len() == 4 && "impr"@[0] == 'i' && "impr"@[1] == 'm' && "impr"@[2] == 'p' && "impr"@[3] == 'r',
        "sing"@.len() == 4 && "sing"@[0] == 's' && "sing"@[1] == 'i' && "sing"@[2] == 'n' && "sing"@[3] == 'g',
        "plur"@.len() == 4 && "plur"@[0] == 'p' && "plur"@[1] == 'l' && "plur"@[2] == 'u' && "plur"@[3] == 'r',
        "Sgtm"@.len() == 4 && "Sgtm"@[0] == 'S' && "Sgtm"@[1] == 'g' && "Sgtm"@[2] == 't' && "Sgtm"@[3] == 'm',
        "Pltm"@.len() == 4 && "Pltm"@[0] == 'P' && "Pltm"@[1] == 'l' && "Pltm"@[2] == 't' && "Pltm"@[3] == 'm',
        "tran"@.len() == 4 && "tran"@[0] == 't' && "tran"@[1] == 'r' && "tran"@[2] == 'a' && "tran"@[3] == 'n',
        "intr"@.len() == 4 && "intr"@[0] == 'i' && "intr"@[1] == 'n' && "intr"@[2] == 't' && "intr"@[3] == 'r',
        "past"@.len() == 4 && "past"@[0] == 'p' && "past"@[1] == 'a' && "past"@[2] == 's' && "past"@[3] == 't',
        "pres"@.len() == 4 && "pres"@[0] == 'p' && "pres"@[1] == 'r' && "pres"@[2] == 'e' && "pres"@[3] == 's',
        "futr"@.len() == 4 && "futr"@[0] == 'f' && "futr"@[1] == 'u' && "futr"@[2] == 't' && "futr"@[3] == 'r',
        "actv"@.len() == 4 && "actv"@[0] == 'a' && "actv"@[1] == 'c' && "actv"@[2] == 't' && "actv"@[3] == 'v',
        "pssv"@.len() == 4 && "pssv"@[0] == 'p' && "pssv"@[1] == 's' && "pssv"@[2] == 's' && "pssv"@[3] == 'v',
        "1per"@.len() == 4 && "1per"@[0] == '1' && "1per"@[1] == 'p' && "1per"@[2] == 'e' && "1per"@[3] == 'r',
        "2per"@.len() == 4 && "2per"@[0] == '2' && "2per"@[1] == 'p' && "2per"@[2] == 'e' && "2per"@[3] == 'r',
        "3per"@.len() == 4 && "3per"@[0] == '3' && "3per"@[1] == 'p' && "3per"@[2] == 'e' && "3per"@[3] == 'r',
        "Impe"@.len() == 4 && "Impe"@[0] == 'I' && "Impe"@[1] == 'm' && "Impe"@[2] == 'p' && "Impe"@[3] == 'e',
        "Impx"@.len() == 4 && "Impx"@[0] == 'I' && "Impx"@[1] == 'm' && "Impx"@[2] == 'p' && "Impx"@[3] == 'x',
        "Abbr"@.len() == 4 && "Abbr"@[0] == 'A' && "Abbr"@[1] == 'b' && "Abbr"@[2] == 'b' && "Abbr"@[3] == 'r',
        "Name"@.len() == 4 && "Name"@[0] == 'N' && "Name"@[1] == 'a' && "Name"@[2] == 'm' && "Name"@[3] == 'e',
        "Surn"@.len() == 4 && "Surn"@[0] == 'S' && "Surn"@[1] == 'u' && "Surn"@[2] == 'r' && "Surn"@[3] == 'n',
        "Patr"@.len() == 4 && "Patr"@[0] == 'P' && "Patr"@[1] == 'a' && "Patr"@[2] == 't' && "Patr"@[3] == 'r',
        "Geox"@.len() == 4 && "Geox"@[0] == 'G' && "Geox"@[1] == 'e' && "Geox"@[2] == 'o' && "Geox"@[3] == 'x',
        "Orgn"@.len() == 4 && "Orgn"@[0] == 'O' && "Orgn"@[1] == 'r' && "Orgn"@[2] == 'g' && "Orgn"@[3] == 'n',
        "Trad"@.len() == 4 && "Trad"@[0] == 'T' && "Trad"@[1] == 'r' && "Trad"@[2] == 'a' && "Trad"@[3] == 'd',
        "Subx"@.len() == 4 && "Subx"@[0] == 'S' && "Subx"@[1] == 'u' && "Subx"@[2] == 'b' && "Subx"@[3] == 'x',
        "Supr"@.len() == 4 && "Supr"@[0] == 'S' && "Supr"@[1] == 'u' && "Supr"@[2] == 'p' && "Supr"@[3] == 'r',
        "Qual"@.len() == 4 && "Qual"@[0] == 'Q' && "Qual"@[1] == 'u' && "Qual"@[2] == 'a' && "Qual"@[3] == 'l',
        "Apro"@.len() == 4 && "Apro"@[0] == 'A' && "Apro"@[1] == 'p' && "Apro"@[2] == 'r' && "Apro"@[3] == 'o',
        "Anum"@.len() == 4 && "Anum"@[0] == 'A' && "Anum"@[1] == 'n' && "Anum"@[2] == 'u' && "Anum"@[3] == 'm',
        "Poss"@.len() == 4 && "Poss"@[0] == 'P' && "Poss"@[1] == 'o' && "Poss"@[2] == 's' && "Poss"@[3] == 's',
        "Ques"@.len() == 4 && "Ques"@[0] == 'Q' && "Ques"@[1] == 'u' && "Ques"@[2] == 'e' && "Ques"@[3] == 's',
        "Dmns"@.len() == 4 && "Dmns"@[0] == 'D' && "Dmns"@[1] == 'm' && "Dmns"@[2] == 'n' && "Dmns"@[3] == 's',
        "Anph"@.len() == 4 && "Anph"@[0] == 'A' && "Anph"@[1] == 'n' && "Anph"@[2] == 'p' && "Anph"@[3] == 'h',
        "Cmp2"@.len() == 4 && "Cmp2"@[0] == 'C' && "Cmp2"@[1] == 'm' && "Cmp2"@[2] == 'p' && "Cmp2"@[3] == '2',
        "V-ey"@.len() == 4 && "V-ey"@[0] == 'V' && "V-ey"@[1] == '-' && "V-ey"@[2] == 'e' && "V-ey"@[3] == 'y',
        "V-oy"@.len() == 4 && "V-oy"@[0] == 'V' && "V-oy"@[1] == '-' && "V-oy"@[2] == 'o' && "V-oy"@[3] == 'y',
        "V-ej"@.len() == 4 && "V-ej"@[0] == 'V' && "V-ej"@[1] == '-' && "V-ej"@[2] == 'e' && "V-ej"@[3] == 'j',
        "V-be"@.len() == 4 && "V-be"@[0] == 'V' && "V-be"@[1] == '-' && "V-be"@[2] == 'b' && "V-be"@[3] == 'e',
        "V-en"@.len() == 4 && "V-en"@[0] == 'V' && "V-en"@[1] == '-' && "V-en"@[2] == 'e' && "V-en"@[3] == 'n',
        "V-ie"@.len() == 4 && "V-ie"@[0] == 'V' && "V-ie"@[1] == '-' && "V-ie"@[2] == 'i' && "V-ie"@[3] == 'e',
        "V-bi"@.len() == 4 && "V-bi"@[0] == 'V' && "V-bi"@[1] == '-' && "V-bi"@[2] == 'b' && "V-bi"@[3] == 'i',
        "V-sh"@.len() == 4 && "V-sh"@[0] == 'V' && "V-sh"@[1] == '-' && "V-sh"@[2] == 's' && "V-sh"@[3] == 'h',
        "Mult"@.len() == 4 && "Mult"@[0] == 'M' && "Mult"@[1] == 'u' && "Mult"@[2] == 'l' && "Mult"@[3] == 't',
        "Refl"@.len() == 4 && "Refl"@[0] == 'R' && "Refl"@[1] == 'e' && "Refl"@[2] == 'f' && "Refl"@[3] == 'l',
        "Infr"@.len() == 4 && "Infr"@[0] == 'I' && "Infr"@[1] == 'n' && "Infr"@[2] == 'f' && "Infr"@[3] == 'r',
        "Slng"@.len() == 4 && "Slng"@[0] == 'S' && "Slng"@[1] == 'l' && "Slng"@[2] == 'n' && "Slng"@[3] == 'g',
        "Arch"@.len() == 4 && "Arch"@[0] == 'A' && "Arch"@[1] == 'r' && "Arch"@[2] == 'c' && "Arch"@[3] == 'h',
        "Litr"@.len() == 4 && "Litr"@[0] == 'L' && "Litr"@[1] == 'i' && "Litr"@[2] == 't' && "Litr"@[3] == 'r',
        "Erro"@.len() == 4 && "Erro"@[0] == 'E' && "Erro"@[1] == 'r' && "Erro"@[2] == 'r' && "Erro"@[3] == 'o',
        "Dist"@.len() == 4 && "Dist"@[0] == 'D' && "Dist"@[1] == 'i' && "Dist"@[2] == 's' && "Dist"@[3] == 't',
        "Prnt"@.len() == 4 && "Prnt"@[0] == 'P' && "Prnt"@[1] == 'r' && "Prnt"@[2] == 'n' && "Prnt"@[3] == 't',
        "Fimp"@.len() == 4 && "Fimp"@[0] == 'F' && "Fimp"@[1] == 'i' && "Fimp"@[2] == 'm' && "Fimp"@[3] == 'p',
        "Prdx"@.len() == 4 && "Prdx"@[0] == 'P' && "Prdx"@[1] == 'r' && "Prdx"@[2] == 'd' && "Prdx"@[3] == 'x',
        "Coun"@.len() == 4 && "Coun"@[0] == 'C' && "Coun"@[1] == 'o' && "Coun"@[2] == 'u' && "Coun"@[3] == 'n',
        "Coll"@.len() == 4 && "Coll"@[0] == 'C' && "Coll"@[1] == 'o' && "Coll"@[2] == 'l' && "Coll"@[3] == 'l',
        "Af-p"@.len() == 4 && "Af-p"@[0] == 'A' && "Af-p"@[1] == 'f' && "Af-p"@[2] == '-' && "Af-p"@[3] == 'p',
        "Vpre"@.len() == 4 && "Vpre"@[0] == 'V' && "Vpre"@[1] == 'p' && "Vpre"@[2] == 'r' && "Vpre"@[3] == 'e',
        "Init"@.len() == 4 && "Init"@[0] == 'I' && "Init"@[1] == 'n' && "Init"@[2] == 'i' && "Init"@[3] == 't',
        "Adjx"@.len() == 4 && "Adjx"@[0] == 'A' && "Adjx"@[1] == 'd' && "Adjx"@[2] == 'j' && "Adjx"@[3] == 'x',
        "Hypo"@.len() == 4 && "Hypo"@[0] == 'H' && "Hypo"@[1] == 'y' && "Hypo"@[2] == 'p' && "Hypo"@[3] == 'o',
        "Other"@.len() == 5 && "Other"@[0] == 'O' && "Other"@[1] == 't' && "Other"@[2] == 'h' && "Other"@[3] == 'e' && "Other"@[4] == 'r',
{
    reveal_strlit("NOUN");
    reveal_strlit("ADJF");
    reveal_strlit("ADJS");
    reveal_strlit("COMP");
    reveal_strlit("VERB");
    reveal_strlit("INFN");
    reveal_strlit("PRTF");
    reveal_strlit("PRTS");
    reveal_strlit("GRND");
    reveal_strlit("NUMR");
    reveal_strlit("ADVB");
    reveal_strlit("NPRO");
    reveal_strlit("PRED");
    reveal_strlit("PREP");
    reveal_strlit("CONJ");
    reveal_strlit("PRCL");
    reveal_strlit("INTJ");
    reveal_strlit("anim");
    reveal_strlit("inan");
    reveal_strlit("Inmx");
    reveal_strlit("perf");
    reveal_strlit("impf");
    reveal_strlit("Fixd");
    reveal_strlit("nomn");
    reveal_strlit("gent");
    reveal_strlit("datv");
    reveal_strlit("accs");
    reveal_strlit("ablt");
    reveal_strlit("loct");
    reveal_strlit("voct");
    reveal_strlit("gen2");
    reveal_strlit("acc2");
    reveal_strlit("loc2");
    reveal_strlit("masc");
    reveal_strlit("femn");
    reveal_strlit("neut");
    reveal_strlit("ms-f");
    reveal_strlit("Ms-f");
    reveal_strlit("GNdr");
    reveal_strlit("incl");
    reveal_strlit("excl");
    reveal_strlit("indc");
    reveal_strlit("impr");
    reveal_strlit("sing");
    reveal_strlit("plur");
    reveal_strlit("Sgtm");
    reveal_strlit("Pltm");
    reveal_strlit("tran");
    reveal_strlit("intr");
    reveal_strlit("past");
    reveal_strlit("pres");
    reveal_strlit("futr");
    reveal_strlit("actv");
    reveal_strlit("pssv");
    reveal_strlit("1per");
    reveal_strlit("2per");
    reveal_strlit("3per");
    reveal_strlit("Impe");
    reveal_strlit("Impx");
    reveal_strlit("Abbr");
    reveal_strlit("Name");
    reveal_strlit("Surn");
    reveal_strlit("Patr");
    reveal_strlit("Geox");
    reveal_strlit("Orgn");
    reveal_strlit("Trad");
    reveal_strlit("Subx");
    reveal_strlit("Supr");
    reveal_strlit("Qual");
    reveal_strlit("Apro");
    reveal_strlit("Anum");
    reveal_strlit("Poss");
    reveal_strlit("Ques");
    reveal_strlit("Dmns");
    reveal_strlit("Anph");
    reveal_strlit("Cmp2");
    reveal_strlit("V-ey");
    reveal_strlit("V-oy");
    reveal_strlit("V-ej");
    reveal_strlit("V-be");
    reveal_strlit("V-en");
    reveal_strlit("V-ie");
    reveal_strlit("V-bi");
    reveal_strlit("V-sh");
    reveal_strlit("Mult");
    reveal_strlit("Refl");
    reveal_strlit("Infr");
    reveal_strlit("Slng");
    reveal_strlit("Arch");
    reveal_strlit("Litr");
    reveal_strlit("Erro");
    reveal_strlit("Dist");
    reveal_strlit("Prnt");
    reveal_strlit("Fimp");
    reveal_strlit("Prdx");
    reveal_strlit("Coun");
    reveal_strlit("Coll");
    reveal_strlit("Af-p");
    reveal_strlit("Vpre");
    reveal_strlit("Init");
    reveal_strlit("Adjx");
    reveal_strlit("Hypo");
    reveal_strlit("Other");
}

/// The grammemes of the known codes among `codes`, in order.
pub open spec fn known_grammems(codes: Seq<Seq<char>>) -> Seq<Grammeme>
    decreases codes.len(),
{
    if codes.len() == 0 {
        Seq::empty()
    } else {
        let rest = known_grammems(codes.drop_last());
        match grammem_of_code(codes.last()) {
            Some(g) => rest.push(g),
            None => rest,
        }
    }
}

/// The grammemes of a list of codes: `None` without a list or when no code is known.
pub open spec fn parsed_grammems(codes: Option<Seq<Seq<char>>>) -> Option<Seq<Grammeme>> {
    match codes {
        None => None,
        Some(c) => if known_grammems(c).len() == 0 {
            None
        } else {
            Some(known_grammems(c))
        },
    }
}

/// The grammemes of the known codes of the list, in order; `None` without a list or when
/// none of its codes is known.
pub fn parse_opencorpora_grammemes(grams: Option<&[String]>) -> (r: Option<Vec<Grammeme>>)
    ensures
        match grams {
            None => r is None,
            Some(values) => match parsed_grammems(Some(string_views(values@))) {
                None => r is None,
                Some(p) => r matches Some(v) && v@ == p,
            },
        },
{
    match grams {
        None => None,
        Some(values) => {
            let ghost codes = string_views(values@);
            let mut parsed: Vec<Grammeme> = Vec::new();
            let mut i: usize = 0;
            while i < values.len()
                invariant
                    i <= values@.len(),
                    codes == string_views(values@),
                    parsed@ == known_grammems(codes.take(i as int)),
                decreases values@.len() - i,
            {
                let g = opencorpora_to_grammem(values[i].as_str());
                proof {
                    assert(codes.take(i + 1).drop_last() =~= codes.take(i as int));
                    assert(codes.take(i + 1).last() == values@[i as int]@);
                }
                match g {
                    Some(g) => parsed.push(g),
                    None => {},
                }
                i += 1;
            }
            proof {
                assert(codes.take(values@.len() as int) =~= codes);
            }
            if parsed.len() == 0 {
                None
            } else {
                Some(parsed)
            }
        },
    }
}

/// Reading a code gives back a grammeme written as that very code.
#[verifier::rlimit(100)]
pub proof fn law_code_round_trip(s: Seq<char>)
    ensures
        grammem_of_code(s) matches Some(g) ==> grammem_code(g) == s,
{
    if s == "NOUN"@ {
        assert(grammem_code(Grammeme::ParteSpeech(ParteSpeech::Noun)) == s);
    } else if s == "ADJF"@ {
        assert(grammem_code(Grammeme::ParteSpeech(ParteSpeech::AdjectiveFull)) == s);
    } else if s == "ADJS"@ {
        assert(grammem_code(Grammeme::ParteSpeech(ParteSpeech::AdjectiveShort)) == s);
    } else if s == "COMP"@ {
        assert(grammem_code(Grammeme::ParteSpeech(ParteSpeech::Comparative)) == s);
    } else if s == "VERB"@ {
        assert(grammem_code(Grammeme::ParteSpeech(ParteSpeech::Verb)) == s);
    } else if s == "INFN"@ {
        assert(grammem_code(Grammeme::ParteSpeech(ParteSpeech::Infinitive)) == s);
    } else if s == "PRTF"@ {
        assert(grammem_code(Grammeme::ParteSpeech(ParteSpeech::ParticipleFull)) == s);
    } else if s == "PRTS"@ {
        assert(grammem_code(Grammeme::ParteSpeech(ParteSpeech::ParticipleShort)) == s);
    } else if s == "GRND"@ {
        assert(grammem_code(Grammeme::ParteSpeech(ParteSpeech::Gerundive)) == s);
    } else if s == "NUMR"@ {
        assert(grammem_code(Grammeme::ParteSpeech(ParteSpeech::Number)) == s);
    } else if s == "ADVB"@ {
        assert(grammem_code(Grammeme::ParteSpeech(ParteSpeech::Adverb)) == s);
    } else if s == "NPRO"@ {
        assert(grammem_code(Grammeme::ParteSpeech(ParteSpeech::NounPronoun)) == s);
    } else if s == "PRED"@ {
        assert(grammem_code(Grammeme::ParteSpeech(ParteSpeech::Predicative)) == s);
    } else if s == "PREP"@ {
        assert(grammem_code(Grammeme::ParteSpeech(ParteSpeech::Preposition)) == s);
    } else if s == "CONJ"@ {
        assert(grammem_code(Grammeme::ParteSpeech(ParteSpeech::Conjunction)) == s);
    } else if s == "PRCL"@ {
        assert(grammem_code(Grammeme::ParteSpeech(ParteSpeech::Particle)) == s);
    } else if s == "INTJ"@ {
        assert(grammem_code(Grammeme::ParteSpeech(ParteSpeech::Interjection)) == s);
    } else if s == "anim"@ {
        assert(grammem_code(Grammeme::Animacy(Animacy::Animate)) == s);
    } else if s == "inan"@ {
        assert(grammem_code(Grammeme::Animacy(Animacy::Inanimate)) == s);
    } else if s == "Inmx"@ {
        assert(grammem_code(Grammeme::Animacy(Animacy::Both)) == s);
    } else if s == "perf"@ {
        assert(grammem_code(Grammeme::Aspect(Aspect::Perfetto)) == s);
    } else if s == "impf"@ {
        assert(grammem_code(Grammeme::Aspect(Aspect::Imperfetto)) == s);
    } else if s == "Fixd"@ {
        assert(grammem_code(Grammeme::Case(Case::Fixed)) == s);
    } else if s == "nomn"@ {
        assert(grammem_code(Grammeme::Case(Case::Nominativus)) == s);
    } else if s == "gent"@ {
        assert(grammem_code(Grammeme::Case(Case::Genetivus)) == s);
    } else if s == "datv"@ {
        assert(grammem_code(Grammeme::Case(Case::Dativus)) == s);
    } else if s == "accs"@ {
        assert(grammem_code(Grammeme::Case(Case::Accusativus)) == s);
    } else if s == "ablt"@ {
        assert(grammem_code(Grammeme::Case(Case::Ablativus)) == s);
    } else if s == "loct"@ {
        assert(grammem_code(Grammeme::Case(Case::Locativus)) == s);
    } else if s == "voct"@ {
        assert(grammem_code(Grammeme::Case(Case::Vocativus)) == s);
    } else if s == "gen2"@ {
        assert(grammem_code(Grammeme::Case(Case::Gen2)) == s);
    } else if s == "acc2"@ {
        assert(grammem_code(Grammeme::Case(Case::Acc2)) == s);
    } else if s == "loc2"@ {
        assert(grammem_code(Grammeme::Case(Case::Loc2)) == s);
    } else if s == "masc"@ {
        assert(grammem_code(Grammeme::Gender(Gender::Masculine)) == s);
    } else if s == "femn"@ {
        assert(grammem_code(Grammeme::Gender(Gender::Feminine)) == s);
    } else if s == "neut"@ {
        assert(grammem_code(Grammeme::Gender(Gender::Neutral)) == s);
    } else if s == "ms-f"@ {
        assert(grammem_code(Grammeme::Gender(Gender::Common)) == s);
    } else if s == "Ms-f"@ {
        assert(grammem_code(Grammeme::Gender(Gender::CommonWavering)) == s);
    } else if s == "GNdr"@ {
        assert(grammem_code(Grammeme::Gender(Gender::GenderNeutral)) == s);
    } else if s == "incl"@ {
        assert(grammem_code(Grammeme::Involvement(Involvement::Incluso)) == s);
    } else if s == "excl"@ {
        assert(grammem_code(Grammeme::Involvement(Involvement::Excluso)) == s);
    } else if s == "indc"@ {
        assert(grammem_code(Grammeme::Mood(Mood::Indicativo)) == s);
    } else if s == "impr"@ {
        assert(grammem_code(Grammeme::Mood(Mood::Imperativo)) == s);
    } else if s == "sing"@ {
        assert(grammem_code(Grammeme::Number(Number::Singular)) == s);
    } else if s == "plur"@ {
        assert(grammem_code(Grammeme::Number(Number::Plural)) == s);
    } else if s == "Sgtm"@ {
        assert(grammem_code(Grammeme::Number(Number::SingulariaTantum)) == s);
    } else if s == "Pltm"@ {
        assert(grammem_code(Grammeme::Number(Number::PluraliaTantum)) == s);
    } else if s == "tran"@ {
        assert(grammem_code(Grammeme::Trans(Transitivity::Transitive)) == s);
    } else if s == "intr"@ {
        assert(grammem_code(Grammeme::Trans(Transitivity::Intransitive)) == s);
    } else if s == "past"@ {
        assert(grammem_code(Grammeme::Tense(Tense::Past)) == s);
    } else if s == "pres"@ {
        assert(grammem_code(Grammeme::Tense(Tense::Present)) == s);
    } else if s == "futr"@ {
        assert(grammem_code(Grammeme::Tense(Tense::Future)) == s);
    } else if s == "actv"@ {
        assert(grammem_code(Grammeme::Voice(Voice::Active)) == s);
    } else if s == "pssv"@ {
        assert(grammem_code(Grammeme::Voice(Voice::Passive)) == s);
    } else if s == "1per"@ {
        assert(grammem_code(Grammeme::Person(Person::First)) == s);
    } else if s == "2per"@ {
        assert(grammem_code(Grammeme::Person(Person::Second)) == s);
    } else if s == "3per"@ {
        assert(grammem_code(Grammeme::Person(Person::Third)) == s);
    } else if s == "Impe"@ {
        assert(grammem_code(Grammeme::Person(Person::Impersonal)) == s);
    } else if s == "Impx"@ {
        assert(grammem_code(Grammeme::Person(Person::PossibleImpersonal)) == s);
    } else if s == "Abbr"@ {
        assert(grammem_code(Grammeme::Other(Other::Abbreviation)) == s);
    } else if s == "Name"@ {
        assert(grammem_code(Grammeme::Other(Other::Name)) == s);
    } else if s == "Surn"@ {
        assert(grammem_code(Grammeme::Other(Other::Surname)) == s);
    } else if s == "Patr"@ {
        assert(grammem_code(Grammeme::Other(Other::Patronymic)) == s);
    } else if s == "Geox"@ {
        assert(grammem_code(Grammeme::Other(Other::Geography)) == s);
    } else if s == "Orgn"@ {
        assert(grammem_code(Grammeme::Other(Other::Organization)) == s);
    } else if s == "Trad"@ {
        assert(grammem_code(Grammeme::Other(Other::Trademark)) == s);
    } else if s == "Subx"@ {
        assert(grammem_code(Grammeme::Other(Other::PossibleSubstantive)) == s);
    } else if s == "Supr"@ {
        assert(grammem_code(Grammeme::Other(Other::Superior)) == s);
    } else if s == "Qual"@ {
        assert(grammem_code(Grammeme::Other(Other::Quality)) == s);
    } else if s == "Apro"@ {
        assert(grammem_code(Grammeme::Other(Other::Pronominal)) == s);
    } else if s == "Anum"@ {
        assert(grammem_code(Grammeme::Other(Other::Ordinal)) == s);
    } else if s == "Poss"@ {
        assert(grammem_code(Grammeme::Other(Other::Possessive)) == s);
    } else if s == "Ques"@ {
        assert(grammem_code(Grammeme::Other(Other::Questionable)) == s);
    } else if s == "Dmns"@ {
        assert(grammem_code(Grammeme::Other(Other::Demonstrative)) == s);
    } else if s == "Anph"@ {
        assert(grammem_code(Grammeme::Other(Other::Anaphoric)) == s);
    } else if s == "Cmp2"@ {
        assert(grammem_code(Grammeme::Other(Other::Comparative)) == s);
    } else if s == "V-ey"@ {
        assert(grammem_code(Grammeme::Other(Other::FormEY)) == s);
    } else if s == "V-oy"@ {
        assert(grammem_code(Grammeme::Other(Other::FormOY)) == s);
    } else if s == "V-ej"@ {
        assert(grammem_code(Grammeme::Other(Other::FormEJ)) == s);
    } else if s == "V-be"@ {
        assert(grammem_code(Grammeme::Other(Other::FormBE)) == s);
    } else if s == "V-en"@ {
        assert(grammem_code(Grammeme::Other(Other::FormENEN)) == s);
    } else if s == "V-ie"@ {
        assert(grammem_code(Grammeme::Other(Other::FormIE)) == s);
    } else if s == "V-bi"@ {
        assert(grammem_code(Grammeme::Other(Other::FormBI)) == s);
    } else if s == "V-sh"@ {
        assert(grammem_code(Grammeme::Other(Other::ParticipleSH)) == s);
    } else if s == "Mult"@ {
        assert(grammem_code(Grammeme::Other(Other::Multiple)) == s);
    } else if s == "Refl"@ {
        assert(grammem_code(Grammeme::Other(Other::Reflessivo)) == s);
    } else if s == "Infr"@ {
        assert(grammem_code(Grammeme::Other(Other::Spoken)) == s);
    } else if s == "Slng"@ {
        assert(grammem_code(Grammeme::Other(Other::Slang)) == s);
    } else if s == "Arch"@ {
        assert(grammem_code(Grammeme::Other(Other::Archaic)) == s);
    } else if s == "Litr"@ {
        assert(grammem_code(Grammeme::Other(Other::Literary)) == s);
    } else if s == "Erro"@ {
        assert(grammem_code(Grammeme::Other(Other::Error)) == s);
    } else if s == "Dist"@ {
        assert(grammem_code(Grammeme::Other(Other::Distortion)) == s);
    } else if s == "Prnt"@ {
        assert(grammem_code(Grammeme::Other(Other::Parenthesis)) == s);
    } else if s == "Fimp"@ {
        assert(grammem_code(Grammeme::Other(Other::ImperfectiveParticiple)) == s);
    } else if s == "Prdx"@ {
        assert(grammem_code(Grammeme::Other(Other::PossiblePredicative)) == s);
    } else if s == "Coun"@ {
        assert(grammem_code(Grammeme::Other(Other::Countable)) == s);
    } else if s == "Coll"@ {
        assert(grammem_code(Grammeme::Other(Other::Collection)) == s);
    } else if s == "Af-p"@ {
        assert(grammem_code(Grammeme::Other(Other::AfterPreposition)) == s);
    } else if s == "Vpre"@ {
        assert(grammem_code(Grammeme::Other(Other::PrepositionVariant)) == s);
    } else if s == "Init"@ {
        assert(grammem_code(Grammeme::Other(Other::Initial)) == s);
    } else if s == "Adjx"@ {
        assert(grammem_code(Grammeme::Other(Other::PossibleAdjective)) == s);
    } else if s == "Hypo"@ {
        assert(grammem_code(Grammeme::Other(Other::Hypothetical)) == s);
    }
}

proof fn lemma_round_trip_partespeech(x: ParteSpeech)
    ensures
        grammem_of_code(grammem_code(Grammeme::ParteSpeech(x))) == Some(Grammeme::ParteSpeech(x)),
{
    lemma_code_literals();
}

proof fn lemma_round_trip_animacy(x: Animacy)
    ensures
        grammem_of_code(grammem_code(Grammeme::Animacy(x))) == Some(Grammeme::Animacy(x)),
{
    lemma_code_literals();
}

proof fn lemma_round_trip_aspect(x: Aspect)
    ensures
        grammem_of_code(grammem_code(Grammeme::Aspect(x))) == Some(Grammeme::Aspect(x)),
{
    lemma_code_literals();
}

proof fn lemma_round_trip_case(x: Case)
    ensures
        grammem_of_code(grammem_code(Grammeme::Case(x))) == Some(Grammeme::Case(x)),
{
    lemma_code_literals();
}

proof fn lemma_round_trip_gender(x: Gender)
    ensures
        grammem_of_code(grammem_code(Grammeme::Gender(x))) == Some(Grammeme::Gender(x)),
{
    lemma_code_literals();
}

proof fn lemma_round_trip_involvement(x: Involvement)
    ensures
        grammem_of_code(grammem_code(Grammeme::Involvement(x))) == Some(Grammeme::Involvement(x)),
{
    lemma_code_literals();
}

proof fn lemma_round_trip_mood(x: Mood)
    ensures
        grammem_of_code(grammem_code(Grammeme::Mood(x))) == Some(Grammeme::Mood(x)),
{
    lemma_code_literals();
}

proof fn lemma_round_trip_number(x: Number)
    ensures
        grammem_of_code(grammem_code(Grammeme::Number(x))) == Some(Grammeme::Number(x)),
{
    lemma_code_literals();
}

proof fn lemma_round_trip_trans(x: Transitivity)
    ensures
        grammem_of_code(grammem_code(Grammeme::Trans(x))) == Some(Grammeme::Trans(x)),
{
    lemma_code_literals();
}

proof fn lemma_round_trip_tense(x: Tense)
    ensures
        grammem_of_code(grammem_code(Grammeme::Tense(x))) == Some(Grammeme::Tense(x)),
{
    lemma_code_literals();
}

proof fn lemma_round_trip_voice(x: Voice)
    ensures
        grammem_of_code(grammem_code(Grammeme::Voice(x))) == Some(Grammeme::Voice(x)),
{
    lemma_code_literals();
}

proof fn lemma_round_trip_person(x: Person)
    ensures
        grammem_of_code(grammem_code(Grammeme::Person(x))) == Some(Grammeme::Person(x)),
{
    lemma_code_literals();
}

proof fn lemma_round_trip_other(x: Other)
    ensures
        x != Other::Other ==> grammem_of_code(grammem_code(Grammeme::Other(x))) == Some(Grammeme::Other(x)),
        x == Other::Other ==> grammem_of_code(grammem_code(Grammeme::Other(x))) is None,
{
    lemma_code_literals();
}

/// Writing a grammeme as its code and reading the code back gives the grammeme again, for
/// every grammeme but `Other::Other`, whose code reads as nothing.
pub proof fn law_grammem_round_trip(g: Grammeme)
    ensures
        g != Grammeme::Other(Other::Other) ==> grammem_of_code(grammem_code(g)) == Some(g),
        g == Grammeme::Other(Other::Other) ==> grammem_of_code(grammem_code(g)) is None,
{
    match g {
        Grammeme::ParteSpeech(x) => lemma_round_trip_partespeech(x),
        Grammeme::Animacy(x) => lemma_round_trip_animacy(x),
        Grammeme::Aspect(x) => lemma_round_trip_aspect(x),
        Grammeme::Case(x) => lemma_round_trip_case(x),
        Grammeme::Gender(x) => lemma_round_trip_gender(x),
        Grammeme::Involvement(x) => lemma_round_trip_involvement(x),
        Grammeme::Mood(x) => lemma_round_trip_mood(x),
        Grammeme::Number(x) => lemma_round_trip_number(x),
        Grammeme::Trans(x) => lemma_round_trip_trans(x),
        Grammeme::Tense(x) => lemma_round_trip_tense(x),
        Grammeme::Voice(x) => lemma_round_trip_voice(x),
        Grammeme::Person(x) => lemma_round_trip_person(x),
        Grammeme::Other(x) => lemma_round_trip_other(x),
    }
}

/// The OpenCorpora code of each of the parts of speech, and the grammeme each code reads as.
pub proof fn law_parte_speech_codes()
    ensures
        grammem_code(Grammeme::ParteSpeech(ParteSpeech::Noun)) == "NOUN"@,
        grammem_of_code("NOUN"@) == Some(Grammeme::ParteSpeech(ParteSpeech::Noun)),
        grammem_code(Grammeme::ParteSpeech(ParteSpeech::AdjectiveFull)) == "ADJF"@,
        grammem_of_code("ADJF"@) == Some(Grammeme::ParteSpeech(ParteSpeech::AdjectiveFull)),
        grammem_code(Grammeme::ParteSpeech(ParteSpeech::AdjectiveShort)) == "ADJS"@,
        grammem_of_code("ADJS"@) == Some(Grammeme::ParteSpeech(ParteSpeech::AdjectiveShort)),
        grammem_code(Grammeme::ParteSpeech(ParteSpeech::Comparative)) == "COMP"@,
        grammem_of_code("COMP"@) == Some(Grammeme::ParteSpeech(ParteSpeech::Comparative)),
        grammem_code(Grammeme::ParteSpeech(ParteSpeech::Verb)) == "VERB"@,
        grammem_of_code("VERB"@) == Some(Grammeme::ParteSpeech(ParteSpeech::Verb)),
        grammem_code(Grammeme::ParteSpeech(ParteSpeech::Infinitive)) == "INFN"@,
        grammem_of_code("INFN"@) == Some(Grammeme::ParteSpeech(ParteSpeech::Infinitive)),
        grammem_code(Grammeme::ParteSpeech(ParteSpeech::ParticipleFull)) == "PRTF"@,
        grammem_of_code("PRTF"@) == Some(Grammeme::ParteSpeech(ParteSpeech::ParticipleFull)),
        grammem_code(Grammeme::ParteSpeech(ParteSpeech::ParticipleShort)) == "PRTS"@,
        grammem_of_code("PRTS"@) == Some(Grammeme::ParteSpeech(ParteSpeech::ParticipleShort)),
        grammem_code(Grammeme::ParteSpeech(ParteSpeech::Gerundive)) == "GRND"@,
        grammem_of_code("GRND"@) == Some(Grammeme::ParteSpeech(ParteSpeech::Gerundive)),
        grammem_code(Grammeme::ParteSpeech(ParteSpeech::Number)) == "NUMR"@,
        grammem_of_code("NUMR"@) == Some(Grammeme::ParteSpeech(ParteSpeech::Number)),
        grammem_code(Grammeme::ParteSpeech(ParteSpeech::Adverb)) == "ADVB"@,
        grammem_of_code("ADVB"@) == Some(Grammeme::ParteSpeech(ParteSpeech::Adverb)),
        grammem_code(Grammeme::ParteSpeech(ParteSpeech::NounPronoun)) == "NPRO"@,
        grammem_of_code("NPRO"@) == Some(Grammeme::ParteSpeech(ParteSpeech::NounPronoun)),
        grammem_code(Grammeme::ParteSpeech(ParteSpeech::Predicative)) == "PRED"@,
        grammem_of_code("PRED"@) == Some(Grammeme::ParteSpeech(ParteSpeech::Predicative)),
        grammem_code(Grammeme::ParteSpeech(ParteSpeech::Preposition)) == "PREP"@,
        grammem_of_code("PREP"@) == Some(Grammeme::ParteSpeech(ParteSpeech::Preposition)),
        grammem_code(Grammeme::ParteSpeech(ParteSpeech::Conjunction)) == "CONJ"@,
        grammem_of_code("CONJ"@) == Some(Grammeme::ParteSpeech(ParteSpeech::Conjunction)),
        grammem_code(Grammeme::ParteSpeech(ParteSpeech::Particle)) == "PRCL"@,
        grammem_of_code("PRCL"@) == Some(Grammeme::ParteSpeech(ParteSpeech::Particle)),
        grammem_code(Grammeme::ParteSpeech(ParteSpeech::Interjection)) == "INTJ"@,
        grammem_of_code("INTJ"@) == Some(Grammeme::ParteSpeech(ParteSpeech::Interjection)),
{
    law_grammem_round_trip(Grammeme::ParteSpeech(ParteSpeech::Noun));
    law_grammem_round_trip(Grammeme::ParteSpeech(ParteSpeech::AdjectiveFull));
    law_grammem_round_trip(Grammeme::ParteSpeech(ParteSpeech::AdjectiveShort));
    law_grammem_round_trip(Grammeme::ParteSpeech(ParteSpeech::Comparative));
    law_grammem_round_trip(Grammeme::ParteSpeech(ParteSpeech::Verb));
    law_grammem_round_trip(Grammeme::ParteSpeech(ParteSpeech::Infinitive));
    law_grammem_round_trip(Grammeme::ParteSpeech(ParteSpeech::ParticipleFull));
    law_grammem_round_trip(Grammeme::ParteSpeech(ParteSpeech::ParticipleShort));
    law_grammem_round_trip(Grammeme::ParteSpeech(ParteSpeech::Gerundive));
    law_grammem_round_trip(Grammeme::ParteSpeech(ParteSpeech::Number));
    law_grammem_round_trip(Grammeme::ParteSpeech(ParteSpeech::Adverb));
    law_grammem_round_trip(Grammeme::ParteSpeech(ParteSpeech::NounPronoun));
    law_grammem_round_trip(Grammeme::ParteSpeech(ParteSpeech::Predicative));
    law_grammem_round_trip(Grammeme::ParteSpeech(ParteSpeech::Preposition));
    law_grammem_round_trip(Grammeme::ParteSpeech(ParteSpeech::Conjunction));
    law_grammem_round_trip(Grammeme::ParteSpeech(ParteSpeech::Particle));
    law_grammem_round_trip(Grammeme::ParteSpeech(ParteSpeech::Interjection));
}

/// The OpenCorpora code of each of the animacy, and the grammeme each code reads as.
pub proof fn law_animacy_codes()
    ensures
        grammem_code(Grammeme::Animacy(Animacy::Animate)) == "anim"@,
        grammem_of_code("anim"@) == Some(Grammeme::Animacy(Animacy::Animate)),
        grammem_code(Grammeme::Animacy(Animacy::Inanimate)) == "inan"@,
        grammem_of_code("inan"@) == Some(Grammeme::Animacy(Animacy::Inanimate)),
        grammem_code(Grammeme::Animacy(Animacy::Both)) == "Inmx"@,
        grammem_of_code("Inmx"@) == Some(Grammeme::Animacy(Animacy::Both)),
{
    law_grammem_round_trip(Grammeme::Animacy(Animacy::Animate));
    law_grammem_round_trip(Grammeme::Animacy(Animacy::Inanimate));
    law_grammem_round_trip(Grammeme::Animacy(Animacy::Both));
}

/// The OpenCorpora code of each of the aspects, and the grammeme each code reads as.
pub proof fn law_aspect_codes()
    ensures
        grammem_code(Grammeme::Aspect(Aspect::Perfetto)) == "perf"@,
        grammem_of_code("perf"@) == Some(Grammeme::Aspect(Aspect::Perfetto)),
        grammem_code(Grammeme::Aspect(Aspect::Imperfetto)) == "impf"@,
        grammem_of_code("impf"@) == Some(Grammeme::Aspect(Aspect::Imperfetto)),
{
    law_grammem_round_trip(Grammeme::Aspect(Aspect::Perfetto));
    law_grammem_round_trip(Grammeme::Aspect(Aspect::Imperfetto));
}

/// The OpenCorpora code of each of the cases, and the grammeme each code reads as.
pub proof fn law_case_codes()
    ensures
        grammem_code(Grammeme::Case(Case::Fixed)) == "Fixd"@,
        grammem_of_code("Fixd"@) == Some(Grammeme::Case(Case::Fixed)),
        grammem_code(Grammeme::Case(Case::Nominativus)) == "nomn"@,
        grammem_of_code("nomn"@) == Some(Grammeme::Case(Case::Nominativus)),
        grammem_code(Grammeme::Case(Case::Genetivus)) == "gent"@,
        grammem_of_code("gent"@) == Some(Grammeme::Case(Case::Genetivus)),
        grammem_code(Grammeme::Case(Case::Dativus)) == "datv"@,
        grammem_of_code("datv"@) == Some(Grammeme::Case(Case::Dativus)),
        grammem_code(Grammeme::Case(Case::Accusativus)) == "accs"@,
        grammem_of_code("accs"@) == Some(Grammeme::Case(Case::Accusativus)),
        grammem_code(Grammeme::Case(Case::Ablativus)) == "ablt"@,
        grammem_of_code("ablt"@) == Some(Grammeme::Case(Case::Ablativus)),
        grammem_code(Grammeme::Case(Case::Locativus)) == "loct"@,
        grammem_of_code("loct"@) == Some(Grammeme::Case(Case::Locativus)),
        grammem_code(Grammeme::Case(Case::Vocativus)) == "voct"@,
        grammem_of_code("voct"@) == Some(Grammeme::Case(Case::Vocativus)),
        grammem_code(Grammeme::Case(Case::Gen2)) == "gen2"@,
        grammem_of_code("gen2"@) == Some(Grammeme::Case(Case::Gen2)),
        grammem_code(Grammeme::Case(Case::Acc2)) == "acc2"@,
        grammem_of_code("acc2"@) == Some(Grammeme::Case(Case::Acc2)),
        grammem_code(Grammeme::Case(Case::Loc2)) == "loc2"@,
        grammem_of_code("loc2"@) == Some(Grammeme::Case(Case::Loc2)),
{
    law_grammem_round_trip(Grammeme::Case(Case::Fixed));
    law_grammem_round_trip(Grammeme::Case(Case::Nominativus));
    law_grammem_round_trip(Grammeme::Case(Case::Genetivus));
    law_grammem_round_trip(Grammeme::Case(Case::Dativus));
    law_grammem_round_trip(Grammeme::Case(Case::Accusativus));
    law_grammem_round_trip(Grammeme::Case(Case::Ablativus));
    law_grammem_round_trip(Grammeme::Case(Case::Locativus));
    law_grammem_round_trip(Grammeme::Case(Case::Vocativus));
    law_grammem_round_trip(Grammeme::Case(Case::Gen2));
    law_grammem_round_trip(Grammeme::Case(Case::Acc2));
    law_grammem_round_trip(Grammeme::Case(Case::Loc2));
}

/// The OpenCorpora code of each of the genders, and the grammeme each code reads as.
pub proof fn law_gender_codes()
    ensures
        grammem_code(Grammeme::Gender(Gender::Masculine)) == "masc"@,
        grammem_of_code("masc"@) == Some(Grammeme::Gender(Gender::Masculine)),
        grammem_code(Grammeme::Gender(Gender::Feminine)) == "femn"@,
        grammem_of_code("femn"@) == Some(Grammeme::Gender(Gender::Feminine)),
        grammem_code(Grammeme::Gender(Gender::Neutral)) == "neut"@,
        grammem_of_code("neut"@) == Some(Grammeme::Gender(Gender::Neutral)),
        grammem_code(Grammeme::Gender(Gender::Common)) == "ms-f"@,
        grammem_of_code("ms-f"@) == Some(Grammeme::Gender(Gender::Common)),
        grammem_code(Grammeme::Gender(Gender::CommonWavering)) == "Ms-f"@,
        grammem_of_code("Ms-f"@) == Some(Grammeme::Gender(Gender::CommonWavering)),
        grammem_code(Grammeme::Gender(Gender::GenderNeutral)) == "GNdr"@,
        grammem_of_code("GNdr"@) == Some(Grammeme::Gender(Gender::GenderNeutral)),
{
    law_grammem_round_trip(Grammeme::Gender(Gender::Masculine));
    law_grammem_round_trip(Grammeme::Gender(Gender::Feminine));
    law_grammem_round_trip(Grammeme::Gender(Gender::Neutral));
    law_grammem_round_trip(Grammeme::Gender(Gender::Common));
    law_grammem_round_trip(Grammeme::Gender(Gender::CommonWavering));
    law_grammem_round_trip(Grammeme::Gender(Gender::GenderNeutral));
}

/// The OpenCorpora code of each of the involvement, and the grammeme each code reads as.
pub proof fn law_involvement_codes()
    ensures
        grammem_code(Grammeme::Involvement(Involvement::Incluso)) == "incl"@,
        grammem_of_code("incl"@) == Some(Grammeme::Involvement(Involvement::Incluso)),
        grammem_code(Grammeme::Involvement(Involvement::Excluso)) == "excl"@,
        grammem_of_code("excl"@) == Some(Grammeme::Involvement(Involvement::Excluso)),
{
    law_grammem_round_trip(Grammeme::Involvement(Involvement::Incluso));
    law_grammem_round_trip(Grammeme::Involvement(Involvement::Excluso));
}

/// The OpenCorpora code of each of the moods, and the grammeme each code reads as.
pub proof fn law_mood_codes()
    ensures
        grammem_code(Grammeme::Mood(Mood::Indicativo)) == "indc"@,
        grammem_of_code("indc"@) == Some(Grammeme::Mood(Mood::Indicativo)),
        grammem_code(Grammeme::Mood(Mood::Imperativo)) == "impr"@,
        grammem_of_code("impr"@) == Some(Grammeme::Mood(Mood::Imperativo)),
{
    law_grammem_round_trip(Grammeme::Mood(Mood::Indicativo));
    law_grammem_round_trip(Grammeme::Mood(Mood::Imperativo));
}

/// The OpenCorpora code of each of the numbers, and the grammeme each code reads as.
pub proof fn law_number_codes()
    ensures
        grammem_code(Grammeme::Number(Number::Singular)) == "sing"@,
        grammem_of_code("sing"@) == Some(Grammeme::Number(Number::Singular)),
        grammem_code(Grammeme::Number(Number::Plural)) == "plur"@,
        grammem_of_code("plur"@) == Some(Grammeme::Number(Number::Plural)),
        grammem_code(Grammeme::Number(Number::SingulariaTantum)) == "Sgtm"@,
        grammem_of_code("Sgtm"@) == Some(Grammeme::Number(Number::SingulariaTantum)),
        grammem_code(Grammeme::Number(Number::PluraliaTantum)) == "Pltm"@,
        grammem_of_code("Pltm"@) == Some(Grammeme::Number(Number::PluraliaTantum)),
{
    law_grammem_round_trip(Grammeme::Number(Number::Singular));
    law_grammem_round_trip(Grammeme::Number(Number::Plural));
    law_grammem_round_trip(Grammeme::Number(Number::SingulariaTantum));
    law_grammem_round_trip(Grammeme::Number(Number::PluraliaTantum));
}

/// The OpenCorpora code of each of the transitivity, and the grammeme each code reads as.
pub proof fn law_trans_codes()
    ensures
        grammem_code(Grammeme::Trans(Transitivity::Transitive)) == "tran"@,
        grammem_of_code("tran"@) == Some(Grammeme::Trans(Transitivity::Transitive)),
        grammem_code(Grammeme::Trans(Transitivity::Intransitive)) == "intr"@,
        grammem_of_code("intr"@) == Some(Grammeme::Trans(Transitivity::Intransitive)),
{
    law_grammem_round_trip(Grammeme::Trans(Transitivity::Transitive));
    law_grammem_round_trip(Grammeme::Trans(Transitivity::Intransitive));
}

/// The OpenCorpora code of each of the tenses, and the grammeme each code reads as.
pub proof fn law_tense_codes()
    ensures
        grammem_code(Grammeme::Tense(Tense::Past)) == "past"@,
        grammem_of_code("past"@) == Some(Grammeme::Tense(Tense::Past)),
        grammem_code(Grammeme::Tense(Tense::Present)) == "pres"@,
        grammem_of_code("pres"@) == Some(Grammeme::Tense(Tense::Present)),
        grammem_code(Grammeme::Tense(Tense::Future)) == "futr"@,
        grammem_of_code("futr"@) == Some(Grammeme::Tense(Tense::Future)),
{
    law_grammem_round_trip(Grammeme::Tense(Tense::Past));
    law_grammem_round_trip(Grammeme::Tense(Tense::Present));
    law_grammem_round_trip(Grammeme::Tense(Tense::Future));
}

/// The OpenCorpora code of each of the voices, and the grammeme each code reads as.
pub proof fn law_voice_codes()
    ensures
        grammem_code(Grammeme::Voice(Voice::Active)) == "actv"@,
        grammem_of_code("actv"@) == Some(Grammeme::Voice(Voice::Active)),
        grammem_code(Grammeme::Voice(Voice::Passive)) == "pssv"@,
        grammem_of_code("pssv"@) == Some(Grammeme::Voice(Voice::Passive)),
{
    law_grammem_round_trip(Grammeme::Voice(Voice::Active));
    law_grammem_round_trip(Grammeme::Voice(Voice::Passive));
}

/// The OpenCorpora code of each of the persons, and the grammeme each code reads as.
pub proof fn law_person_codes()
    ensures
        grammem_code(Grammeme::Person(Person::First)) == "1per"@,
        grammem_of_code("1per"@) == Some(Grammeme::Person(Person::First)),
        grammem_code(Grammeme::Person(Person::Second)) == "2per"@,
        grammem_of_code("2per"@) == Some(Grammeme::Person(Person::Second)),
        grammem_code(Grammeme::Person(Person::Third)) == "3per"@,
        grammem_of_code("3per"@) == Some(Grammeme::Person(Person::Third)),
        grammem_code(Grammeme::Person(Person::Impersonal)) == "Impe"@,
        grammem_of_code("Impe"@) == Some(Grammeme::Person(Person::Impersonal)),
        grammem_code(Grammeme::Person(Person::PossibleImpersonal)) == "Impx"@,
        grammem_of_code("Impx"@) == Some(Grammeme::Person(Person::PossibleImpersonal)),
{
    law_grammem_round_trip(Grammeme::Person(Person::First));
    law_grammem_round_trip(Grammeme::Person(Person::Second));
    law_grammem_round_trip(Grammeme::Person(Person::Third));
    law_grammem_round_trip(Grammeme::Person(Person::Impersonal));
    law_grammem_round_trip(Grammeme::Person(Person::PossibleImpersonal));
}

/// The OpenCorpora code of each of the other grammemes, and the grammeme each code reads as.
pub proof fn law_other_codes()
    ensures
        grammem_code(Grammeme::Other(Other::Abbreviation)) == "Abbr"@,
        grammem_of_code("Abbr"@) == Some(Grammeme::Other(Other::Abbreviation)),
        grammem_code(Grammeme::Other(Other::Name)) == "Name"@,
        grammem_of_code("Name"@) == Some(Grammeme::Other(Other::Name)),
        grammem_code(Grammeme::Other(Other::Surname)) == "Surn"@,
        grammem_of_code("Surn"@) == Some(Grammeme::Other(Other::Surname)),
        grammem_code(Grammeme::Other(Other::Patronymic)) == "Patr"@,
        grammem_of_code("Patr"@) == Some(Grammeme::Other(Other::Patronymic)),
        grammem_code(Grammeme::Other(Other::Geography)) == "Geox"@,
        grammem_of_code("Geox"@) == Some(Grammeme::Other(Other::Geography)),
        grammem_code(Grammeme::Other(Other::Organization)) == "Orgn"@,
        grammem_of_code("Orgn"@) == Some(Grammeme::Other(Other::Organization)),
        grammem_code(Grammeme::Other(Other::Trademark)) == "Trad"@,
        grammem_of_code("Trad"@) == Some(Grammeme::Other(Other::Trademark)),
        grammem_code(Grammeme::Other(Other::PossibleSubstantive)) == "Subx"@,
        grammem_of_code("Subx"@) == Some(Grammeme::Other(Other::PossibleSubstantive)),
        grammem_code(Grammeme::Other(Other::Superior)) == "Supr"@,
        grammem_of_code("Supr"@) == Some(Grammeme::Other(Other::Superior)),
        grammem_code(Grammeme::Other(Other::Quality)) == "Qual"@,
        grammem_of_code("Qual"@) == Some(Grammeme::Other(Other::Quality)),
        grammem_code(Grammeme::Other(Other::Pronominal)) == "Apro"@,
        grammem_of_code("Apro"@) == Some(Grammeme::Other(Other::Pronominal)),
        grammem_code(Grammeme::Other(Other::Ordinal)) == "Anum"@,
        grammem_of_code("Anum"@) == Some(Grammeme::Other(Other::Ordinal)),
        grammem_code(Grammeme::Other(Other::Possessive)) == "Poss"@,
        grammem_of_code("Poss"@) == Some(Grammeme::Other(Other::Possessive)),
        grammem_code(Grammeme::Other(Other::Questionable)) == "Ques"@,
        grammem_of_code("Ques"@) == Some(Grammeme::Other(Other::Questionable)),
        grammem_code(Grammeme::Other(Other::Demonstrative)) == "Dmns"@,
        grammem_of_code("Dmns"@) == Some(Grammeme::Other(Other::Demonstrative)),
        grammem_code(Grammeme::Other(Other::Anaphoric)) == "Anph"@,
        grammem_of_code("Anph"@) == Some(Grammeme::Other(Other::Anaphoric)),
        grammem_code(Grammeme::Other(Other::Comparative)) == "Cmp2"@,
        grammem_of_code("Cmp2"@) == Some(Grammeme::Other(Other::Comparative)),
        grammem_code(Grammeme::Other(Other::FormEY)) == "V-ey"@,
        grammem_of_code("V-ey"@) == Some(Grammeme::Other(Other::FormEY)),
        grammem_code(Grammeme::Other(Other::FormOY)) == "V-oy"@,
        grammem_of_code("V-oy"@) == Some(Grammeme::Other(Other::FormOY)),
        grammem_code(Grammeme::Other(Other::FormEJ)) == "V-ej"@,
        grammem_of_code("V-ej"@) == Some(Grammeme::Other(Other::FormEJ)),
        grammem_code(Grammeme::Other(Other::FormBE)) == "V-be"@,
        grammem_of_code("V-be"@) == Some(Grammeme::Other(Other::FormBE)),
        grammem_code(Grammeme::Other(Other::FormENEN)) == "V-en"@,
        grammem_of_code("V-en"@) == Some(Grammeme::Other(Other::FormENEN)),
        grammem_code(Grammeme::Other(Other::FormIE)) == "V-ie"@,
        grammem_of_code("V-ie"@) == Some(Grammeme::Other(Other::FormIE)),
        grammem_code(Grammeme::Other(Other::FormBI)) == "V-bi"@,
        grammem_of_code("V-bi"@) == Some(Grammeme::Other(Other::FormBI)),
        grammem_code(Grammeme::Other(Other::ParticipleSH)) == "V-sh"@,
        grammem_of_code("V-sh"@) == Some(Grammeme::Other(Other::ParticipleSH)),
        grammem_code(Grammeme::Other(Other::Multiple)) == "Mult"@,
        grammem_of_code("Mult"@) == Some(Grammeme::Other(Other::Multiple)),
        grammem_code(Grammeme::Other(Other::Reflessivo)) == "Refl"@,
        grammem_of_code("Refl"@) == Some(Grammeme::Other(Other::Reflessivo)),
        grammem_code(Grammeme::Other(Other::Spoken)) == "Infr"@,
        grammem_of_code("Infr"@) == Some(Grammeme::Other(Other::Spoken)),
        grammem_code(Grammeme::Other(Other::Slang)) == "Slng"@,
        grammem_of_code("Slng"@) == Some(Grammeme::Other(Other::Slang)),
        grammem_code(Grammeme::Other(Other::Archaic)) == "Arch"@,
        grammem_of_code("Arch"@) == Some(Grammeme::Other(Other::Archaic)),
        grammem_code(Grammeme::Other(Other::Literary)) == "Litr"@,
        grammem_of_code("Litr"@) == Some(Grammeme::Other(Other::Literary)),
        grammem_code(Grammeme::Other(Other::Error)) == "Erro"@,
        grammem_of_code("Erro"@) == Some(Grammeme::Other(Other::Error)),
        grammem_code(Grammeme::Other(Other::Distortion)) == "Dist"@,
        grammem_of_code("Dist"@) == Some(Grammeme::Other(Other::Distortion)),
        grammem_code(Grammeme::Other(Other::Parenthesis)) == "Prnt"@,
        grammem_of_code("Prnt"@) == Some(Grammeme::Other(Other::Parenthesis)),
        grammem_code(Grammeme::Other(Other::ImperfectiveParticiple)) == "Fimp"@,
        grammem_of_code("Fimp"@) == Some(Grammeme::Other(Other::ImperfectiveParticiple)),
        grammem_code(Grammeme::Other(Other::PossiblePredicative)) == "Prdx"@,
        grammem_of_code("Prdx"@) == Some(Grammeme::Other(Other::PossiblePredicative)),
        grammem_code(Grammeme::Other(Other::Countable)) == "Coun"@,
        grammem_of_code("Coun"@) == Some(Grammeme::Other(Other::Countable)),
        grammem_code(Grammeme::Other(Other::Collection)) == "Coll"@,
        grammem_of_code("Coll"@) == Some(Grammeme::Other(Other::Collection)),
        grammem_code(Grammeme::Other(Other::AfterPreposition)) == "Af-p"@,
        grammem_of_code("Af-p"@) == Some(Grammeme::Other(Other::AfterPreposition)),
        grammem_code(Grammeme::Other(Other::PrepositionVariant)) == "Vpre"@,
        grammem_of_code("Vpre"@) == Some(Grammeme::Other(Other::PrepositionVariant)),
        grammem_code(Grammeme::Other(Other::Initial)) == "Init"@,
        grammem_of_code("Init"@) == Some(Grammeme::Other(Other::Initial)),
        grammem_code(Grammeme::Other(Other::PossibleAdjective)) == "Adjx"@,
        grammem_of_code("Adjx"@) == Some(Grammeme::Other(Other::PossibleAdjective)),
        grammem_code(Grammeme::Other(Other::Hypothetical)) == "Hypo"@,
        grammem_of_code("Hypo"@) == Some(Grammeme::Other(Other::Hypothetical)),
        grammem_code(Grammeme::Other(Other::Other)) == "Other"@,
        grammem_of_code("Other"@) is None,
{
    law_grammem_round_trip(Grammeme::Other(Other::Abbreviation));
    law_grammem_round_trip(Grammeme::Other(Other::Name));
    law_grammem_round_trip(Grammeme::Other(Other::Surname));
    law_grammem_round_trip(Grammeme::Other(Other::Patronymic));
    law_grammem_round_trip(Grammeme::Other(Other::Geography));
    law_grammem_round_trip(Grammeme::Other(Other::Organization));
    law_grammem_round_trip(Grammeme::Other(Other::Trademark));
    law_grammem_round_trip(Grammeme::Other(Other::PossibleSubstantive));
    law_grammem_round_trip(Grammeme::Other(Other::Superior));
    law_grammem_round_trip(Grammeme::Other(Other::Quality));
    law_grammem_round_trip(Grammeme::Other(Other::Pronominal));
    law_grammem_round_trip(Grammeme::Other(Other::Ordinal));
    law_grammem_round_trip(Grammeme::Other(Other::Possessive));
    law_grammem_round_trip(Grammeme::Other(Other::Questionable));
    law_grammem_round_trip(Grammeme::Other(Other::Demonstrative));
    law_grammem_round_trip(Grammeme::Other(Other::Anaphoric));
    law_grammem_round_trip(Grammeme::Other(Other::Comparative));
    law_grammem_round_trip(Grammeme::Other(Other::FormEY));
    law_grammem_round_trip(Grammeme::Other(Other::FormOY));
    law_grammem_round_trip(Grammeme::Other(Other::FormEJ));
    law_grammem_round_trip(Grammeme::Other(Other::FormBE));
    law_grammem_round_trip(Grammeme::Other(Other::FormENEN));
    law_grammem_round_trip(Grammeme::Other(Other::FormIE));
    law_grammem_round_trip(Grammeme::Other(Other::FormBI));
    law_grammem_round_trip(Grammeme::Other(Other::ParticipleSH));
    law_grammem_round_trip(Grammeme::Other(Other::Multiple));
    law_grammem_round_trip(Grammeme::Other(Other::Reflessivo));
    law_grammem_round_trip(Grammeme::Other(Other::Spoken));
    law_grammem_round_trip(Grammeme::Other(Other::Slang));
    law_grammem_round_trip(Grammeme::Other(Other::Archaic));
    law_grammem_round_trip(Grammeme::Other(Other::Literary));
    law_grammem_round_trip(Grammeme::Other(Other::Error));
    law_grammem_round_trip(Grammeme::Other(Other::Distortion));
    law_grammem_round_trip(Grammeme::Other(Other::Parenthesis));
    law_grammem_round_trip(Grammeme::Other(Other::ImperfectiveParticiple));
    law_grammem_round_trip(Grammeme::Other(Other::PossiblePredicative));
    law_grammem_round_trip(Grammeme::Other(Other::Countable));
    law_grammem_round_trip(Grammeme::Other(Other::Collection));
    law_grammem_round_trip(Grammeme::Other(Other::AfterPreposition));
    law_grammem_round_trip(Grammeme::Other(Other::PrepositionVariant));
    law_grammem_round_trip(Grammeme::Other(Other::Initial));
    law_grammem_round_trip(Grammeme::Other(Other::PossibleAdjective));
    law_grammem_round_trip(Grammeme::Other(Other::Hypothetical));
    law_grammem_round_trip(Grammeme::Other(Other::Other));
}

} // verus!
