use renert::error::{DictError, Error, MorphError, RuleValidationError, TokenizerError};

#[test]
fn error_texts_match_their_variants() {
    let e = Error::from(DictError::XmlFileDoesNotExist { path: "dict.xml".to_string() });
    assert_eq!(e.to_string(), "XML file does not exist: dict.xml");
    let m = MorphError::InvalidGrammeme { grammem: "bad".to_string() };
    assert_eq!(m.to_string(), "Invalid grammeme: bad");
    assert_eq!(TokenizerError::AlreadyInitialized.to_string(), "renert::init or load has already been called");
    let r = RuleValidationError::EmptyProduction { rule_id: 3, production_idx: 1 };
    assert_eq!(r.to_string(), "Rule 3, production 1 is empty");
    let t = TokenizerError::from(MorphError::from(DictError::BuildThreadPanicked));
    assert_eq!(t.to_string(), "Dictionary build thread panicked");
}
