use renert::morph::form::{choose_inflection, inflection_needs_lemma};

#[test]
fn parsed_word_is_taken_in_lower_case() {
    assert_eq!(choose_inflection("стол", Some("Столы"), false, None), "столы");
}

#[test]
fn without_a_parsed_word_the_normal_form_stays() {
    assert_eq!(choose_inflection("стол", None, false, None), "стол");
}

#[test]
fn gender_target_retries_the_lemma_when_the_parse_gives_the_normal_form() {
    assert!(inflection_needs_lemma("московский", Some("Московский"), true));
    assert_eq!(
        choose_inflection("московский", Some("Московский"), true, Some("Московская")),
        "московская"
    );
    assert_eq!(choose_inflection("московский", Some("московский"), true, None), "московский");
}

#[test]
fn no_retry_without_gender_or_when_the_parse_changed_the_word() {
    assert!(!inflection_needs_lemma("стол", Some("стол"), false));
    assert!(!inflection_needs_lemma("московский", Some("московская"), true));
    assert_eq!(choose_inflection("стол", Some("стол"), false, Some("x")), "стол");
    assert_eq!(
        choose_inflection("московский", Some("московская"), true, Some("x")),
        "московская"
    );
}

use renert::interpretation::normalizer::{Chain, NormalizedNormalizer};
use renert::morph::form::Form;
use renert::morph::models::Grams;
use renert::span::Span;
use renert::token::{Token, TokenType};

fn morphed(value: &str, start: usize, lemma: &str) -> Token {
    Token::new(value, Span::new(start, start + value.chars().count()), TokenType::Russian)
        .morphed(vec![Form::new(lemma.to_string(), Grams::new(&["NOUN"]), None)])
}

#[test]
fn token_with_parses_normalizes_to_its_first_lemma() {
    assert_eq!(morphed("июня", 0, "июнь").normalized(), "июнь");
    let plain = Token::new("Июня", Span::new(0, 4), TokenType::Russian);
    assert_eq!(plain.normalized(), "июня");
}

#[test]
fn chain_normalizes_through_the_lemmas_of_its_tokens() {
    let chain = Chain::new(vec![morphed("5", 0, "5"), morphed("июня", 2, "июнь")], None);
    assert_eq!(NormalizedNormalizer.call(&chain), "5 июнь");
}

#[test]
fn copied_token_keeps_its_lemma() {
    let token = morphed("столы", 0, "стол");
    assert_eq!(token.copy().normalized(), "стол");
}

use renert::error::MorphError;
use renert::morph::form::{check_gram, forms_of_parses, prepare_form, read_code, read_json_grammeme, read_tag};
use renert::morph::grammemes::{Case, Grammeme, Number, ParteSpeech};

#[test]
fn test_check_gram() {
    assert!(matches!(check_gram("verb"), Err(MorphError::InvalidGrammeme { .. })));
    assert!(check_gram("nomn").is_ok());
    assert!(check_gram("NOUN").is_ok());
}

#[test]
fn test_check_gram_rejects_non_canonical() {
    assert!(check_gram("NOUN").is_ok());
    assert!(check_gram("nomn").is_ok());
    assert!(matches!(check_gram("noun"), Err(MorphError::InvalidGrammeme { .. })));
    assert!(matches!(check_gram("Nomn"), Err(MorphError::InvalidGrammeme { .. })));
    assert!(matches!(
        check_gram("something_random"),
        Err(MorphError::InvalidGrammeme { .. })
    ));
}

#[test]
fn check_gram_names_the_refused_code_and_refuses_aliases() {
    assert_eq!(
        check_gram("gen1"),
        Err(MorphError::InvalidGrammeme { grammem: "gen1".to_string() })
    );
}

#[test]
fn codes_read_with_the_case_aliases() {
    assert_eq!(read_code("gen1"), Some(Grammeme::Case(Case::Genetivus)));
    assert_eq!(read_code("acc1"), Some(Grammeme::Case(Case::Accusativus)));
    assert_eq!(read_code("loc1"), Some(Grammeme::Case(Case::Locativus)));
    assert_eq!(read_code("datv"), Some(Grammeme::Case(Case::Dativus)));
    assert_eq!(read_code("xyz"), None);
}

#[test]
fn prepared_form_lower_cases_the_normal_form_and_keeps_the_codes() {
    let raw: morph_rs::ParsedWord = serde_json::from_str(
        r#"{"word":"столы","tags":["NOUN","plur","nomn"],"normal_form":"Стол","method":"Dictionary"}"#,
    )
    .expect("parse");
    let form = prepare_form(
        "Стол",
        vec![
            Grammeme::ParteSpeech(ParteSpeech::Noun),
            Grammeme::Number(Number::Plural),
            Grammeme::Case(Case::Nominativus),
        ],
        raw.clone(),
    );
    assert_eq!(form.normalized, "стол");
    assert!(form.grams.contains("NOUN"));
    assert!(form.grams.contains("plur"));
    assert!(form.grams.contains("nomn"));
    assert!(!form.grams.contains("sing"));
    assert_eq!(form.raw, Some(raw));
}

#[test]
fn json_grammemes_read_between_their_quotes() {
    assert_eq!(read_json_grammeme("\"nomn\""), Some(Grammeme::Case(Case::Nominativus)));
    assert_eq!(read_json_grammeme("\"gen1\""), Some(Grammeme::Case(Case::Genetivus)));
    assert_eq!(read_json_grammeme("nomn"), None);
    assert_eq!(read_json_grammeme("\""), None);
    let tag = vec![Some("\"NOUN\"".to_string()), None, Some("\"plur\"".to_string()), Some("\"zzz\"".to_string())];
    assert_eq!(
        read_tag(&tag),
        vec![Grammeme::ParteSpeech(ParteSpeech::Noun), Grammeme::Number(Number::Plural)]
    );
}

#[test]
fn forms_of_parses_follow_the_parses_in_order() {
    let raw: morph_rs::ParsedWord = serde_json::from_str(
        r#"{"word":"столы","tags":["NOUN","plur","nomn"],"normal_form":"Стол","method":"Dictionary"}"#,
    )
    .expect("parse");
    let tag: Vec<Option<String>> = raw.tag().iter().map(|g| serde_json::to_string(g).ok()).collect();
    let forms = forms_of_parses(vec![(raw.normal_form(), tag, raw.clone())]);
    assert_eq!(forms.len(), 1);
    assert_eq!(forms[0].normalized, "стол");
    assert!(forms[0].grams.contains("NOUN"));
    assert!(forms[0].grams.contains("plur"));
    assert!(forms[0].grams.contains("nomn"));
    assert_eq!(forms[0].raw, Some(raw));
}
