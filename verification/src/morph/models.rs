//! Grammemes of a morphological analysis and their projections: gender, number, case.
use vstd::prelude::*;

use crate::text::{contains_string, sorted_unique_strings, string_views, strictly_sorted};

verus! {

/// A set of grammemes, as OpenCorpora codes (`"NOUN"`, `"nomn"`, `"masc"`, ...).
#[derive(Debug, Clone, PartialEq, Eq, Hash)]
pub struct Grams {
    /// The codes, sorted and without duplicates.
    pub values: Vec<String>,
}

impl Grams {
    /// The codes, as a set.
    pub open spec fn set(&self) -> Set<Seq<char>> {
        string_views(self.values@).to_set()
    }

    /// The codes are sorted and without duplicates.
    pub open spec fn wf(&self) -> bool {
        strictly_sorted(string_views(self.values@))
    }

    /// The set of the given codes.
    pub fn new(items: &[&str]) -> (r: Grams)
        ensures
            r.wf(),
            r.set() == items@.map_values(|s: &str| s@).to_set(),
    {
        Grams { values: sorted_unique_strings(items) }
    }

    /// A copy of the set, code by code.
    pub fn copy(&self) -> (r: Grams)
        ensures
            string_views(r.values@) == string_views(self.values@),
    {
        let mut values: Vec<String> = Vec::new();
        let mut i: usize = 0;
        while i < self.values.len()
            invariant
                i <= self.values@.len(),
                values@.len() == i,
                forall|j: int| 0 <= j < i ==> #[trigger] values@[j]@ == self.values@[j]@,
            decreases self.values@.len() - i,
        {
            values.push(self.values[i].clone());
            i += 1;
        }
        proof { assert(string_views(values@) =~= string_views(self.values@)); }
        Grams { values }
    }

    /// The empty set.
    pub fn empty() -> (r: Grams)
        ensures
            r.wf(),
            r.set() == Set::<Seq<char>>::empty(),
    {
        let r = Grams { values: Vec::new() };
        proof {
            assert(string_views(r.values@) =~= Seq::<Seq<char>>::empty());
            assert(r.set() =~= Set::<Seq<char>>::empty());
        }
        r
    }

    /// `true` when `gram` is in the set.
    pub fn contains(&self, gram: &str) -> (r: bool)
        ensures
            r == self.set().contains(gram@),
    {
        let r = contains_string(&self.values, gram);
        proof {
            let sv = string_views(self.values@);
            assert(sv.contains(gram@) == sv.to_set().contains(gram@));
        }
        r
    }

    /// The gender of the set, as [`Grams::gender`] gives it.
    pub open spec fn gender_of(&self) -> Gender {
        spec_gender(self.set())
    }

    /// The number of the set, as [`Grams::number`] gives it.
    pub open spec fn number_of(&self) -> Number {
        spec_number(self.set())
    }

    /// The gender of the word.
    pub fn gender(&self) -> (r: Gender)
        ensures
            r == spec_gender(self.set()),
    {
        Gender::from_grams(self)
    }

    /// The number of the word.
    pub fn number(&self) -> (r: Number)
        ensures
            r == spec_number(self.set()),
    {
        Number::from_grams(self)
    }

    /// The case of the word.
    pub fn case(&self) -> (r: Case)
        ensures
            r.fixed == self.set().contains("Fixd"@),
            forall|i: int| 0 <= i < 7 ==> r.mask@[i] == self.set().contains(#[trigger] case_codes()[i]),
    {
        Case::from_grams(self)
    }
}

impl Default for Grams {
    fn default() -> (r: Grams)
        ensures
            r.set() == Set::<Seq<char>>::empty(),
    {
        Grams::empty()
    }
}

/// The gender of a word, from its grammemes.
#[derive(Debug, Clone, Copy, PartialEq, Eq, Structural)]
pub struct Gender {
    /// Masculine (`masc`).
    pub male: bool,
    /// Feminine (`femn`).
    pub female: bool,
    /// Neuter (`neut`).
    pub neutral: bool,
    /// Common gender (`Ms-f` or `ms-f`).
    pub bi: bool,
    /// Gender left open (`GNdr`).
    pub general: bool,
}

/// Gender of a set of grammemes.
pub open spec fn spec_gender(g: Set<Seq<char>>) -> Gender {
    Gender {
        male: g.contains("masc"@),
        female: g.contains("femn"@),
        neutral: g.contains("neut"@),
        bi: g.contains("Ms-f"@) || g.contains("ms-f"@),
        general: g.contains("GNdr"@),
    }
}

impl Gender {
    /// The gender of a set of grammemes.
    fn from_grams(g: &Grams) -> (r: Gender)
        ensures
            r == spec_gender(g.set()),
    {
        Gender {
            male: g.contains("masc"),
            female: g.contains("femn"),
            neutral: g.contains("neut"),
            bi: g.contains("Ms-f") || g.contains("ms-f"),
            general: g.contains("GNdr"),
        }
    }
}

/// The number of a word, from its grammemes.
#[derive(Debug, Clone, PartialEq, Eq, Structural)]
pub struct Number {
    /// Singular (`sing`).
    pub single: bool,
    /// Plural (`plur`).
    pub plural: bool,
    /// Singular only (`Sgtm`).
    pub only_single: bool,
    /// Plural only (`Pltm`).
    pub only_plural: bool,
}

/// Number of a set of grammemes.
pub open spec fn spec_number(g: Set<Seq<char>>) -> Number {
    Number {
        single: g.contains("sing"@),
        plural: g.contains("plur"@),
        only_single: g.contains("Sgtm"@),
        only_plural: g.contains("Pltm"@),
    }
}

impl Number {
    /// The number of a set of grammemes.
    pub fn new(grams: &Grams) -> (r: Number)
        ensures
            r == spec_number(grams.set()),
    {
        Number {
            single: grams.contains("sing"),
            plural: grams.contains("plur"),
            only_single: grams.contains("Sgtm"),
            only_plural: grams.contains("Pltm"),
        }
    }

    /// The number of a set of grammemes; the same as [`Number::new`].
    pub fn from_grams(grams: &Grams) -> (r: Number)
        ensures
            r == spec_number(grams.set()),
    {
        Number::new(grams)
    }
}

/// The codes of the cases, in the order of [`Case::mask`].
pub open spec fn case_codes() -> Seq<Seq<char>> {
    seq!["nomn"@, "gent"@, "datv"@, "accs"@, "ablt"@, "loct"@, "voct"@]
}

/// The case of a word, from its grammemes.
#[derive(Debug, Clone, PartialEq, Eq)]
pub struct Case {
    /// Which of `nomn, gent, datv, accs, ablt, loct, voct` the word has.
    pub mask: [bool; 7],
    /// The case is fixed (`Fixd`).
    pub fixed: bool,
}

impl Case {
    /// The case of a set of grammemes.
    pub fn new(grams: &Grams) -> (r: Case)
        ensures
            r.fixed == grams.set().contains("Fixd"@),
            forall|i: int| 0 <= i < 7 ==> r.mask@[i] == grams.set().contains(#[trigger] case_codes()[i]),
    {
        let mask = [
            grams.contains("nomn"),
            grams.contains("gent"),
            grams.contains("datv"),
            grams.contains("accs"),
            grams.contains("ablt"),
            grams.contains("loct"),
            grams.contains("voct"),
        ];
        let r = Case { mask, fixed: grams.contains("Fixd") };
        proof {
            assert forall|i: int| 0 <= i < 7 implies r.mask@[i] == grams.set().contains(#[trigger] case_codes()[i]) by {
                if i == 0 {} else if i == 1 {} else if i == 2 {} else if i == 3 {} else if i == 4 {} else if i == 5 {} else {}
            }
        }
        r
    }

    /// The case of a set of grammemes; the same as [`Case::new`].
    pub fn from_grams(grams: &Grams) -> (r: Case)
        ensures
            r.fixed == grams.set().contains("Fixd"@),
            forall|i: int| 0 <= i < 7 ==> r.mask@[i] == grams.set().contains(#[trigger] case_codes()[i]),
    {
        Case::new(grams)
    }
}


/// The gender of a set of grammemes reads each gender code on its own: masculine exactly when
/// `masc` is in the set, feminine exactly with `femn`, neuter exactly with `neut`, common
/// exactly with `Ms-f` or `ms-f`, open exactly with `GNdr`, whatever else the set holds.
pub proof fn law_gender_reads_each_code(grams: Grams)
    ensures
        grams.gender_of().male <==> grams.set().contains("masc"@),
        grams.gender_of().female <==> grams.set().contains("femn"@),
        grams.gender_of().neutral <==> grams.set().contains("neut"@),
        grams.gender_of().bi <==> (grams.set().contains("Ms-f"@) || grams.set().contains("ms-f"@)),
        grams.gender_of().general <==> grams.set().contains("GNdr"@),
{
}

/// The number of a set of grammemes reads each number code on its own: singular exactly when
/// `sing` is in the set, plural exactly with `plur`, singular only exactly with `Sgtm`,
/// plural only exactly with `Pltm`.
pub proof fn law_number_reads_each_code(grams: Grams)
    ensures
        grams.number_of().single <==> grams.set().contains("sing"@),
        grams.number_of().plural <==> grams.set().contains("plur"@),
        grams.number_of().only_single <==> grams.set().contains("Sgtm"@),
        grams.number_of().only_plural <==> grams.set().contains("Pltm"@),
{
}

/// Adding a code that is not a gender code leaves the gender as it was.
pub proof fn law_gender_ignores_other_codes(g: Set<Seq<char>>, code: Seq<char>)
    requires
        code != "masc"@,
        code != "femn"@,
        code != "neut"@,
        code != "Ms-f"@,
        code != "ms-f"@,
        code != "GNdr"@,
    ensures
        spec_gender(g.insert(code)) == spec_gender(g),
{
}


/// The case mask follows the cases in order: nominative, genitive, dative, accusative,
/// instrumental, prepositional, vocative, each read by its OpenCorpora code.
pub proof fn law_case_mask_order()
    ensures
        case_codes() == seq![
            crate::morph::grammemes::grammem_code(crate::morph::grammemes::Grammeme::Case(crate::morph::grammemes::Case::Nominativus)),
            crate::morph::grammemes::grammem_code(crate::morph::grammemes::Grammeme::Case(crate::morph::grammemes::Case::Genetivus)),
            crate::morph::grammemes::grammem_code(crate::morph::grammemes::Grammeme::Case(crate::morph::grammemes::Case::Dativus)),
            crate::morph::grammemes::grammem_code(crate::morph::grammemes::Grammeme::Case(crate::morph::grammemes::Case::Accusativus)),
            crate::morph::grammemes::grammem_code(crate::morph::grammemes::Grammeme::Case(crate::morph::grammemes::Case::Ablativus)),
            crate::morph::grammemes::grammem_code(crate::morph::grammemes::Grammeme::Case(crate::morph::grammemes::Case::Locativus)),
            crate::morph::grammemes::grammem_code(crate::morph::grammemes::Grammeme::Case(crate::morph::grammemes::Case::Vocativus)),
        ],
        case_codes() == seq!["nomn"@, "gent"@, "datv"@, "accs"@, "ablt"@, "loct"@, "voct"@],
{
    crate::morph::grammemes::law_case_codes();
}

} // verus!
