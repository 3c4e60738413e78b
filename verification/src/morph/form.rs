//! A morphological parse of a word and its inflection through the morph-rs analyzer.
use vstd::prelude::*;

use super::grammemes::{grammem_of_code, grammem_to_opencorpora, opencorpora_to_grammem, Case, Grammeme, Number};
use super::models::Grams;
use crate::text::{lowercase_chars, str_eq, to_lowercase};

verus! {

/// The morph-rs analyzer, over a dictionary read from disk.
#[verifier::external_type_specification]
#[verifier::external_body]
pub struct ExMorphAnalyzer(morph_rs::MorphAnalyzer);

/// A parse of a word by morph-rs.
#[verifier::external_type_specification]
#[verifier::external_body]
pub struct ExParsedWord(morph_rs::ParsedWord);

/// A copy of a morph-rs parse (`ParsedWord::clone`).
///
/// Trusted: nothing is claimed of the copy.
#[verifier::external_body]
fn copy_parse(parse: &morph_rs::ParsedWord) -> (r: morph_rs::ParsedWord) {
    parse.clone()
}

/// The number of tags in the analyzer's dictionary (`analyzer.tags.len()`).
///
/// Trusted: nothing is claimed; the count depends on the dictionary on disk.
#[verifier::external_body]
fn dictionary_tag_count(analyzer: &morph_rs::MorphAnalyzer) -> (r: usize) {
    analyzer.tags.len()
}

/// Whether the dictionary tag at `index` names a part of speech (`Grammem::pos_in_tag`), or
/// `None` past the last tag.
///
/// Trusted: nothing is claimed; the tags depend on the dictionary on disk.
#[verifier::external_body]
fn dictionary_tag_has_pos(analyzer: &morph_rs::MorphAnalyzer, index: usize) -> (r: Option<bool>) {
    analyzer.tags.get(index).map(|tag| morph_rs::morph::grammemes::Grammem::pos_in_tag(tag).is_some())
}

/// An analyzer whose dictionary tags each name a part of speech. morph-rs reads the part of
/// speech of every tag its inflection meets and panics on a tag without one; an analyzer of
/// this type can only be had from [`CheckedAnalyzer::check`], which looks at every tag, so
/// inflection through it does not reach that panic.
pub struct CheckedAnalyzer<'a> {
    analyzer: &'a morph_rs::MorphAnalyzer,
}

impl<'a> CheckedAnalyzer<'a> {
    /// The analyzer, when every tag of its dictionary names a part of speech; `None` when one
    /// does not.
    pub fn check(analyzer: &'a morph_rs::MorphAnalyzer) -> (r: Option<CheckedAnalyzer<'a>>) {
        let n = dictionary_tag_count(analyzer);
        let mut i: usize = 0;
        while i < n
            invariant
                i <= n,
            decreases n - i,
        {
            match dictionary_tag_has_pos(analyzer, i) {
                Some(false) => {
                    return None;
                },
                _ => {},
            }
            i += 1;
        }
        Some(CheckedAnalyzer { analyzer })
    }

    /// The analyzer held.
    pub closed spec fn held(&self) -> morph_rs::MorphAnalyzer {
        *self.analyzer
    }

    /// The analyzer itself.
    pub fn analyzer(&self) -> (r: &'a morph_rs::MorphAnalyzer)
        ensures
            *r == self.held(),
    {
        self.analyzer
    }
}

/// The words that `MorphAnalyzer::inflect_parsed` gives for the parse and the target
/// grammemes, in the order morph-rs gives them; `None` when it gives none or fails. The
/// grammemes are handed over by their codes, read with morph-rs's own serde names.
///
/// Trusted: nothing is claimed of the words, which depend on the dictionary on disk. The
/// analyzer is a checked one, so morph-rs does not panic on a tag without part of speech.
#[verifier::external_body]
fn inflect_parsed_words(analyzer: &CheckedAnalyzer, parse: &morph_rs::ParsedWord, target: &Vec<Grammeme>) -> (r: Option<Vec<String>>) {
    let grammemes = target.iter().map(|g| serde_json::from_str(&format!("\"{}\"", grammem_to_opencorpora(g)))).collect::<Result<Vec<_>, _>>();
    match grammemes {
        Ok(grammemes) => match analyzer.analyzer.inflect_parsed(parse.clone(), grammemes) {
            Ok(Some(words)) => Some(words.0.iter().map(|w| w.word()).collect()),
            _ => None,
        },
        Err(_) => None,
    }
}

/// The words that `MorphAnalyzer::inflect_forms` gives for the lemma and the target
/// grammemes, in the order morph-rs gives them; `None` when it gives none or fails. The
/// grammemes are handed over as in [`inflect_parsed_words`].
///
/// Trusted: nothing is claimed of the words, which depend on the dictionary on disk; the
/// analyzer is a checked one.
#[verifier::external_body]
fn inflect_lemma_words(analyzer: &CheckedAnalyzer, lemma: &str, target: &Vec<Grammeme>) -> (r: Option<Vec<String>>) {
    let grammemes = target.iter().map(|g| serde_json::from_str(&format!("\"{}\"", grammem_to_opencorpora(g)))).collect::<Result<Vec<_>, _>>();
    match grammemes {
        Ok(grammemes) => match analyzer.analyzer.inflect_forms(lemma, grammemes) {
            Ok(Some(words)) => Some(words.0.iter().map(|w| w.word()).collect()),
            _ => None,
        },
        Err(_) => None,
    }
}

/// The grammeme a code names: an OpenCorpora code, or one of the aliases `gen1`, `acc1`,
/// `loc1` of the genitive, accusative and locative.
pub open spec fn code_grammeme(s: Seq<char>) -> Option<Grammeme> {
    if s == "gen1"@ {
        Some(Grammeme::Case(Case::Genetivus))
    } else if s == "acc1"@ {
        Some(Grammeme::Case(Case::Accusativus))
    } else if s == "loc1"@ {
        Some(Grammeme::Case(Case::Locativus))
    } else {
        grammem_of_code(s)
    }
}

/// The aliases name the cases they stand for: `gen1` the genitive, `acc1` the accusative,
/// `loc1` the prepositional; every other code reads as its OpenCorpora grammeme, `ablt` as
/// the instrumental and `loct` as the prepositional among them.
pub proof fn law_code_aliases(s: Seq<char>)
    ensures
        code_grammeme("gen1"@) == Some(Grammeme::Case(Case::Genetivus)),
        code_grammeme("acc1"@) == Some(Grammeme::Case(Case::Accusativus)),
        code_grammeme("loc1"@) == Some(Grammeme::Case(Case::Locativus)),
        s != "gen1"@ && s != "acc1"@ && s != "loc1"@ ==> code_grammeme(s) == grammem_of_code(s),
        code_grammeme("ablt"@) == Some(Grammeme::Case(Case::Ablativus)),
        code_grammeme("loct"@) == Some(Grammeme::Case(Case::Locativus)),
{
    super::grammemes::law_case_codes();
    reveal_strlit("gen1");
    reveal_strlit("acc1");
    reveal_strlit("loc1");
    reveal_strlit("ablt");
    reveal_strlit("loct");
    assert("acc1"@[0] != "gen1"@[0]);
    assert("loc1"@[0] != "gen1"@[0]);
    assert("loc1"@[0] != "acc1"@[0]);
    assert("ablt"@[3] != "gen1"@[3]);
    assert("ablt"@[3] != "acc1"@[3]);
    assert("ablt"@[3] != "loc1"@[3]);
    assert("loct"@[3] != "gen1"@[3]);
    assert("loct"@[3] != "acc1"@[3]);
    assert("loct"@[3] != "loc1"@[3]);
}

/// The grammeme a code names (see [`code_grammeme`]).
pub fn read_code(s: &str) -> (r: Option<Grammeme>)
    ensures
        r == code_grammeme(s@),
{
    if str_eq(s, "gen1") {
        Some(Grammeme::Case(Case::Genetivus))
    } else if str_eq(s, "acc1") {
        Some(Grammeme::Case(Case::Accusativus))
    } else if str_eq(s, "loc1") {
        Some(Grammeme::Case(Case::Locativus))
    } else {
        opencorpora_to_grammem(s)
    }
}

/// The first of the words, if there is one.
pub open spec fn first_word(words: Option<Seq<Seq<char>>>) -> Option<Seq<char>> {
    match words {
        Some(ws) => if ws.len() > 0 { Some(ws[0]) } else { None },
        None => None,
    }
}

/// Texts of optional words.
pub open spec fn opt_words(words: Option<Vec<String>>) -> Option<Seq<Seq<char>>> {
    match words {
        Some(ws) => Some(crate::text::string_views(ws@)),
        None => None,
    }
}

/// The first of the words the analyzer gave, if any.
fn first_of(words: &Option<Vec<String>>) -> (r: Option<&str>)
    ensures
        opt_chars(r) == first_word(opt_words(*words)),
{
    match words {
        Some(ws) => if ws.len() > 0 {
            Some(ws[0].as_str())
        } else {
            None
        },
        None => None,
    }
}

/// What morph-rs's serde gives when it reads a grammeme from JSON text and writes it back:
/// the JSON text of the grammeme read, or `None` when the text reads as no grammeme.
pub uninterp spec fn grammeme_json_round_trip(json: Seq<char>) -> Option<Seq<char>>;

/// morph-rs's serde round trip of a grammeme's JSON text (`serde_json::from_str` into
/// `Grammem`, then `serde_json::to_string`).
///
/// Trusted: the result is the named round trip of the text, which depends on the text alone.
#[verifier::external_body]
fn grammeme_json(json: &str) -> (r: Option<String>)
    ensures
        match r {
            Some(t) => grammeme_json_round_trip(json@) == Some(t@),
            None => grammeme_json_round_trip(json@) is None,
        },
{
    serde_json::from_str::<morph_rs::morph::grammemes::Grammem>(json).ok().and_then(|g| serde_json::to_string(&g).ok())
}

/// A code as a JSON string: the code between double quotes.
pub open spec fn quoted(code: Seq<char>) -> Seq<char> {
    seq!['"'] + code + seq!['"']
}

/// `Ok` when morph-rs reads `gram` as a grammeme and writes that grammeme back as `gram`
/// itself: its canonical code; else `InvalidGrammeme` for `gram`.
pub fn check_gram(gram: &str) -> (r: Result<(), crate::error::MorphError>)
    ensures
        r is Ok <==> grammeme_json_round_trip(quoted(gram@)) == Some(quoted(gram@)),
        r is Err ==> (r->Err_0 matches crate::error::MorphError::InvalidGrammeme { grammem } && grammem@ == gram@),
{
    let mut json = crate::text::string_of("\"");
    json.append(gram);
    json.append("\"");
    proof {
        reveal_strlit("\"");
        assert(json@ =~= quoted(gram@));
    }
    match grammeme_json(json.as_str()) {
        Some(canon) => {
            if str_eq(canon.as_str(), json.as_str()) {
                Ok(())
            } else {
                Err(crate::error::MorphError::InvalidGrammeme { grammem: crate::text::string_of(gram) })
            }
        },
        None => Err(crate::error::MorphError::InvalidGrammeme { grammem: crate::text::string_of(gram) }),
    }
}

/// A form of a parse: its normal form in lower case, the codes of its grammemes, and the
/// parse itself for inflection.
pub fn prepare_form(normal_form: &str, tag: Vec<Grammeme>, raw: morph_rs::ParsedWord) -> (r: Form)
    ensures
        r.normalized@ == lowercase_chars(normal_form@),
        r.grams.wf(),
        r.grams.set() == tag@.map_values(|g: Grammeme| super::grammemes::grammem_code(g)).to_set(),
        r.raw == Some(raw),
{
    let normalized = to_lowercase(normal_form);
    let mut codes: Vec<&str> = Vec::new();
    let mut i: usize = 0;
    while i < tag.len()
        invariant
            i <= tag@.len(),
            codes@.map_values(|c: &str| c@) == tag@.take(i as int).map_values(|g: Grammeme| super::grammemes::grammem_code(g)),
        decreases tag@.len() - i,
    {
        let code = grammem_to_opencorpora(&tag[i]);
        let ghost before = codes@;
        codes.push(code);
        proof {
            assert(codes@.map_values(|c: &str| c@) =~= before.map_values(|c: &str| c@).push(code@));
            assert(tag@.take(i + 1).map_values(|g: Grammeme| super::grammemes::grammem_code(g)) =~= tag@.take(i as int).map_values(|g: Grammeme| super::grammemes::grammem_code(g)).push(super::grammemes::grammem_code(tag@[i as int])));
        }
        i += 1;
    }
    proof {
        assert(tag@.take(tag@.len() as int) =~= tag@);
    }
    let grams = Grams::new(codes.as_slice());
    Form { normalized, grams, raw: Some(raw) }
}

/// The grammeme a JSON string names: the code between its double quotes, read as
/// [`code_grammeme`] reads it; none for other text.
pub open spec fn json_grammeme(json: Seq<char>) -> Option<Grammeme> {
    if json.len() >= 2 && json[0] == '"' && json[json.len() - 1] == '"' {
        code_grammeme(json.subrange(1, json.len() - 1))
    } else {
        None
    }
}

/// The grammemes of a tag given as the JSON text of each grammeme: those that read, in
/// order.
pub open spec fn tag_grammemes(tag: Seq<Option<String>>) -> Seq<Grammeme>
    decreases tag.len(),
{
    if tag.len() == 0 {
        Seq::empty()
    } else {
        let rest = tag_grammemes(tag.drop_last());
        match tag.last() {
            Some(t) => match json_grammeme(t@) {
                Some(g) => rest.push(g),
                None => rest,
            },
            None => rest,
        }
    }
}

/// The grammeme a JSON string names (see [`json_grammeme`]).
pub fn read_json_grammeme(json: &str) -> (r: Option<Grammeme>)
    ensures
        r == json_grammeme(json@),
{
    let n = json.unicode_len();
    if n >= 2 && json.get_char(0) == '"' && json.get_char(n - 1) == '"' {
        read_code(json.substring_char(1, n - 1))
    } else {
        None
    }
}

/// The grammemes of a tag given as the JSON text of each (see [`tag_grammemes`]).
pub fn read_tag(tag: &Vec<Option<String>>) -> (r: Vec<Grammeme>)
    ensures
        r@ == tag_grammemes(tag@),
{
    let mut out: Vec<Grammeme> = Vec::new();
    let mut i: usize = 0;
    while i < tag.len()
        invariant
            i <= tag@.len(),
            out@ == tag_grammemes(tag@.take(i as int)),
        decreases tag@.len() - i,
    {
        proof {
            assert(tag@.take(i + 1).drop_last() =~= tag@.take(i as int));
            assert(tag@.take(i + 1).last() == tag@[i as int]);
        }
        match &tag[i] {
            Some(t) => match read_json_grammeme(t.as_str()) {
                Some(g) => out.push(g),
                None => {},
            },
            None => {},
        }
        i += 1;
    }
    proof {
        assert(tag@.take(tag@.len() as int) =~= tag@);
    }
    out
}

/// A parse as morph-rs gives it: the normal form, the JSON text of each grammeme of the tag,
/// and the parse itself.
pub type RawParse = (String, Vec<Option<String>>, morph_rs::ParsedWord);

/// `form` is the form of the parse `p` (see [`prepare_form`]), its grammemes read from their
/// JSON text.
pub open spec fn form_of_parse(form: Form, p: RawParse) -> bool {
    &&& form.normalized@ == lowercase_chars(p.0@)
    &&& form.grams.wf()
    &&& form.grams.set() == tag_grammemes(p.1@).map_values(|g: Grammeme| super::grammemes::grammem_code(g)).to_set()
    &&& form.raw == Some(p.2)
}

/// Each form is that of the parse at its place.
pub open spec fn forms_of(forms: Seq<Form>, parses: Seq<RawParse>) -> bool {
    &&& forms.len() == parses.len()
    &&& forall|i: int| 0 <= i < parses.len() ==> form_of_parse(#[trigger] forms[i], parses[i])
}

/// The forms of the parses, in order.
pub fn forms_of_parses(parses: Vec<RawParse>) -> (r: Vec<Form>)
    ensures
        forms_of(r@, parses@),
{
    let ghost all = parses@;
    let mut rest = parses;
    let mut out: Vec<Form> = Vec::new();
    let mut i: usize = 0;
    let n = rest.len();
    while i < n
        invariant
            n == all.len(),
            i <= n,
            rest@ == all.subrange(i as int, n as int),
            out@.len() == i,
            forall|k: int| 0 <= k < i ==> form_of_parse(#[trigger] out@[k], all[k]),
        decreases n - i,
    {
        let (normal_form, tag, raw) = rest.remove(0);
        assert((normal_form, tag, raw) == all[i as int]);
        let grams = read_tag(&tag);
        let form = prepare_form(normal_form.as_str(), grams, raw);
        out.push(form);
        i += 1;
        assert(rest@ =~= all.subrange(i as int, n as int));
    }
    out
}

/// The parses of `word` that morph-rs's `MorphAnalyzer::parse` gives: for each, its normal
/// form, the JSON text (`serde_json::to_string`) of each grammeme of its tag, `None` where
/// serde_json fails, and the parse; `None` where morph-rs returns an error.
///
/// Trusted: nothing is claimed of the result, which depends on the analyzer's dictionary.
#[verifier::external_body]
fn analyzer_parses(analyzer: &morph_rs::MorphAnalyzer, word: &str) -> (r: Option<Vec<RawParse>>) {
    match analyzer.parse(word) {
        Ok(words) => Some(
            words.0.into_iter().map(|p| (p.normal_form(), p.tag().iter().map(|g| serde_json::to_string(g).ok()).collect(), p)).collect(),
        ),
        Err(_) => None,
    }
}

/// The forms of the parses of `word` by the analyzer, in the order the analyzer gives them;
/// none where it fails.
pub fn parse_word(analyzer: &morph_rs::MorphAnalyzer, word: &str) -> (r: Vec<Form>)
    ensures
        r@.len() == 0 || exists|parses: Seq<RawParse>| #[trigger] forms_of(r@, parses),
{
    match analyzer_parses(analyzer, word) {
        Some(parses) => forms_of_parses(parses),
        None => Vec::new(),
    }
}

/// The default target of inflection: nominative singular.
pub open spec fn default_target() -> Seq<Grammeme> {
    seq![Grammeme::Case(Case::Nominativus), Grammeme::Number(Number::Singular)]
}

/// The target grammemes: the given ones, or the default.
pub open spec fn inflection_target(grams: Option<Seq<Grammeme>>) -> Seq<Grammeme> {
    match grams {
        Some(g) => g,
        None => default_target(),
    }
}

/// The grammemes an inflection asks the analyzer for: the given ones, or nominative
/// singular when none are given.
pub fn inflection_target_of(grams: Option<Vec<Grammeme>>) -> (r: Vec<Grammeme>)
    ensures
        r@ == inflection_target(opt_grammemes(grams)),
{
    match grams {
        Some(g) => g,
        None => {
            let v = vec![Grammeme::Case(Case::Nominativus), Grammeme::Number(Number::Singular)];
            assert(v@ =~= default_target());
            v
        },
    }
}

/// Without target grammemes an inflection asks for the nominative singular, written as the
/// OpenCorpora codes `nomn` and `sing`; given grammemes are asked for as they are. A target
/// given as codes asks for the same when it holds no code.
pub proof fn law_default_target_is_nominative_singular(grams: Option<Seq<Grammeme>>)
    ensures
        grams is None ==> inflection_target(grams) == seq![Grammeme::Case(Case::Nominativus), Grammeme::Number(Number::Singular)],
        grams matches Some(g) ==> inflection_target(grams) == g,
        inflection_target(None).map_values(|g: Grammeme| super::grammemes::grammem_code(g)) == seq!["nomn"@, "sing"@],
        codes_target(Seq::<&str>::empty()) == inflection_target(None),
        !has_gender(inflection_target(None)),
{
    super::grammemes::law_case_codes();
    super::grammemes::law_number_codes();
    let t = inflection_target(None);
    assert(t.map_values(|g: Grammeme| super::grammemes::grammem_code(g)) =~= seq!["nomn"@, "sing"@]);
    assert(!has_gender(t)) by {
        assert forall|i: int| 0 <= i < t.len() implies !(#[trigger] t[i] is Gender) by {}
    }
}

/// The target names a gender.
pub open spec fn has_gender(target: Seq<Grammeme>) -> bool {
    exists|i: int| 0 <= i < target.len() && #[trigger] target[i] is Gender
}

/// The inflection from the parse: its first word in lower case, or the normal form.
pub open spec fn first_choice(normalized: Seq<char>, parsed_first: Option<Seq<char>>) -> Seq<char> {
    match parsed_first {
        Some(w) => lowercase_chars(w),
        None => normalized,
    }
}

/// The lemma is asked again when the target names a gender and the parse gave back the
/// normal form.
pub open spec fn needs_lemma(normalized: Seq<char>, parsed_first: Option<Seq<char>>, target_has_gender: bool) -> bool {
    target_has_gender && first_choice(normalized, parsed_first) == normalized
}

/// The inflected text: the inflection of the lemma, in lower case, when the lemma was asked
/// again and gave a word; else the inflection from the parse.
pub open spec fn spec_choose_inflection(
    normalized: Seq<char>,
    parsed_first: Option<Seq<char>>,
    target_has_gender: bool,
    lemma_first: Option<Seq<char>>,
) -> Seq<char> {
    if needs_lemma(normalized, parsed_first, target_has_gender) {
        match lemma_first {
            Some(a) => lowercase_chars(a),
            None => normalized,
        }
    } else {
        first_choice(normalized, parsed_first)
    }
}

/// How the analyzer's answer becomes the inflected text: its first word for the parse, in
/// lower case, unless the target names a gender and that word is the normal form itself; then
/// the first word for the lemma, in lower case; the normal form only where the analyzer gave
/// no word.
pub proof fn law_inflection_takes_the_analyzer_word(
    normalized: Seq<char>,
    parsed_first: Option<Seq<char>>,
    target_has_gender: bool,
    lemma_first: Option<Seq<char>>,
)
    ensures
        parsed_first is Some && (!target_has_gender || lowercase_chars(parsed_first->0) != normalized) ==> spec_choose_inflection(
            normalized,
            parsed_first,
            target_has_gender,
            lemma_first,
        ) == lowercase_chars(parsed_first->0),
        target_has_gender && (parsed_first is None || lowercase_chars(parsed_first->0) == normalized) ==> spec_choose_inflection(
            normalized,
            parsed_first,
            target_has_gender,
            lemma_first,
        ) == match lemma_first {
            Some(a) => lowercase_chars(a),
            None => normalized,
        },
        parsed_first is None && !target_has_gender ==> spec_choose_inflection(normalized, parsed_first, target_has_gender, lemma_first)
            == normalized,
{
}

/// The grammemes of an optional vector.
pub open spec fn opt_grammemes(grams: Option<Vec<Grammeme>>) -> Option<Seq<Grammeme>> {
    match grams {
        Some(g) => Some(g@),
        None => None,
    }
}

/// The target named by known codes: their grammemes, or the default for no code.
pub open spec fn codes_target(codes: Seq<&str>) -> Seq<Grammeme> {
    if codes.len() == 0 {
        default_target()
    } else {
        codes.map_values(|c: &str| code_grammeme(c@)->0)
    }
}

/// Texts of an optional string slice.
pub open spec fn opt_chars(o: Option<&str>) -> Option<Seq<char>> {
    match o {
        Some(s) => Some(s@),
        None => None,
    }
}

/// `true` when the lemma has to be inflected again (see [`needs_lemma`]).
pub fn inflection_needs_lemma(normalized: &str, parsed_first: Option<&str>, target_has_gender: bool) -> (r: bool)
    ensures
        r == needs_lemma(normalized@, opt_chars(parsed_first), target_has_gender),
{
    if !target_has_gender {
        return false;
    }
    match parsed_first {
        Some(w) => {
            let lower = to_lowercase(w);
            str_eq(lower.as_str(), normalized)
        },
        None => true,
    }
}

/// The inflected text from what the analyzer gave (see [`spec_choose_inflection`]).
pub fn choose_inflection(
    normalized: &str,
    parsed_first: Option<&str>,
    target_has_gender: bool,
    lemma_first: Option<&str>,
) -> (r: String)
    ensures
        r@ == spec_choose_inflection(normalized@, opt_chars(parsed_first), target_has_gender, opt_chars(lemma_first)),
{
    let first = match parsed_first {
        Some(w) => to_lowercase(w),
        None => crate::text::string_of(normalized),
    };
    if inflection_needs_lemma(normalized, parsed_first, target_has_gender) {
        match lemma_first {
            Some(a) => to_lowercase(a),
            None => crate::text::string_of(normalized),
        }
    } else {
        first
    }
}

/// `true` when some grammeme of the target is a gender.
fn any_gender(target: &Vec<Grammeme>) -> (r: bool)
    ensures
        r == has_gender(target@),
{
    let mut i: usize = 0;
    while i < target.len()
        invariant
            i <= target@.len(),
            forall|j: int| 0 <= j < i ==> !(#[trigger] target@[j] is Gender),
        decreases target@.len() - i,
    {
        match target[i] {
            Grammeme::Gender(_) => {
                return true;
            },
            _ => {},
        }
        i += 1;
    }
    false
}

/// One morphological parse of a word.
#[derive(Debug, Clone, PartialEq, Eq, Hash)]
pub struct Form {
    /// Normal form, lower-cased.
    pub normalized: String,
    /// Grammemes of the form.
    pub grams: Grams,
    /// The morph-rs parse, kept for inflection.
    pub raw: Option<morph_rs::ParsedWord>,
}

impl Form {
    /// Creates a form.
    pub fn new(normalized: String, grams: Grams, raw: Option<morph_rs::ParsedWord>) -> (r: Form)
        ensures
            r.normalized == normalized,
            r.grams == grams,
            r.raw == raw,
    {
        Form { normalized, grams, raw }
    }

    /// A copy of the form: the same normal form and grammemes, and a copy of the parse.
    pub fn copy(&self) -> (r: Form)
        ensures
            r.normalized@ == self.normalized@,
            crate::text::string_views(r.grams.values@) == crate::text::string_views(self.grams.values@),
            r.raw is Some <==> self.raw is Some,
    {
        let raw = match &self.raw {
            Some(p) => Some(copy_parse(p)),
            None => None,
        };
        Form { normalized: self.normalized.clone(), grams: self.grams.copy(), raw }
    }

    /// Inflects the form to the target grammemes (nominative singular by default): the
    /// first word the analyzer gives for the parse, in lower case; when the target names a
    /// gender and that gives back the normal form, the first word for the lemma instead.
    /// Without a parse, or when the analyzer gives nothing, the normal form.
    pub fn inflect(&self, analyzer: &CheckedAnalyzer, grams: Option<Vec<Grammeme>>) -> (r: String)
        ensures
            self.raw is None ==> r@ == self.normalized@,
            self.raw is Some ==> exists|p: Option<Seq<char>>, l: Option<Seq<char>>| r@ == #[trigger] spec_choose_inflection(
                self.normalized@,
                p,
                has_gender(inflection_target(opt_grammemes(grams))),
                l,
            ),
    {
        match &self.raw {
            None => self.normalized.clone(),
            Some(raw) => {
                let target = inflection_target_of(grams);
                let gender = any_gender(&target);
                let parsed = inflect_parsed_words(analyzer, raw, &target);
                let parsed_ref = first_of(&parsed);
                let lemma = if inflection_needs_lemma(self.normalized.as_str(), parsed_ref, gender) {
                    inflect_lemma_words(analyzer, self.normalized.as_str(), &target)
                } else {
                    None
                };
                let lemma_ref = first_of(&lemma);
                let r = choose_inflection(self.normalized.as_str(), parsed_ref, gender, lemma_ref);
                proof {
                    assert(r@ == spec_choose_inflection(self.normalized@, opt_chars(parsed_ref), gender, opt_chars(lemma_ref)));
                }
                r
            },
        }
    }

    /// Inflects the form to grammemes given as OpenCorpora codes, the aliases `gen1`, `acc1`
    /// and `loc1` included (nominative singular for none); an unknown code gives the normal
    /// form.
    pub fn inflect_str(&self, analyzer: &CheckedAnalyzer, grams: &[&str]) -> (r: String)
        ensures
            (exists|i: int| 0 <= i < grams@.len() && code_grammeme(#[trigger] grams@[i]@) is None) ==> r@
                == self.normalized@,
            self.raw is None ==> r@ == self.normalized@,
            (self.raw is Some && forall|i: int| 0 <= i < grams@.len() ==> code_grammeme(#[trigger] grams@[i]@) is Some)
                ==> exists|p: Option<Seq<char>>, l: Option<Seq<char>>| r@ == #[trigger] spec_choose_inflection(
                self.normalized@,
                p,
                has_gender(codes_target(grams@)),
                l,
            ),
    {
        if grams.len() == 0 {
            proof {
                assert(codes_target(grams@) == inflection_target(opt_grammemes(None)));
            }
            return self.inflect(analyzer, None);
        }
        let mut v: Vec<Grammeme> = Vec::new();
        let mut i: usize = 0;
        while i < grams.len()
            invariant
                i <= grams@.len(),
                v@.len() == i,
                forall|j: int| 0 <= j < i ==> code_grammeme(#[trigger] grams@[j]@) == Some(v@[j]),
            decreases grams@.len() - i,
        {
            match read_code(grams[i]) {
                Some(g) => v.push(g),
                None => {
                    return self.normalized.clone();
                },
            }
            i += 1;
        }
        proof {
            assert(v@ =~= grams@.map_values(|c: &str| code_grammeme(c@)->0));
            assert(codes_target(grams@) == v@);
        }
        let ghost target = v@;
        let r = self.inflect(analyzer, Some(v));
        proof {
            assert(inflection_target(opt_grammemes(Some(v))) == target);
        }
        r
    }
}

} // verus!
