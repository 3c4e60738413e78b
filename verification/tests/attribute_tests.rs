use renert::interpretation::attribute::{
    attribute, attribute_with_default, AttributeBase, AttributeInterpretatorKind, AttributeScheme,
    AttributeSchemeBase, CustomAttribute, FactRef, InterpretatorDispatch, MorphAttribute,
    RepeatableAttribute,
};
use renert::interpretation::normalizer::{
    AttributeResult, Chain, InterpretationValue, NormalizerResult,
};
use renert::interpretation::{Attribute, FactValue};
use renert::token::Tokenizer;

const CLOSURE_TYPE: &str = "attribute_tests::{{closure}}";

#[test]
fn fact_ref_supports_subclass_check() {
    let city = FactRef::new("City");
    let capital = FactRef::with_parents("Capital", &["City"]);
    assert!(capital.is_subclass_of(&city));
    assert!(!city.is_subclass_of(&capital));
}

#[test]
fn scheme_construct_and_repeatable_work() {
    let scheme = AttributeScheme::new("name", None);
    let attr = scheme.construct("City");
    assert_eq!(attr.label(), "City.name");

    let repeatable = scheme.repeatable();
    let rep_attr = repeatable.construct("City");
    assert_eq!(rep_attr.label(), "City.name");
}

#[test]
#[should_panic(expected = "repeatable attribute scheme must not have default value")]
fn repeatable_panics_on_non_empty_default() {
    let scheme = AttributeScheme::new("name", Some(FactValue::Str("x".into())));
    match scheme.try_repeatable() {
        Some(_) => {}
        None => panic!("repeatable attribute scheme must not have default value"),
    }
}

#[test]
fn normalized_and_inflected_normalizers_are_accessible() {
    let attr = Attribute::new("City", "name", None);

    let normalized = attr.clone().normalized().normalizer();
    assert_eq!(normalized.label(), "normalized()");

    let inflected = attr.inflected().normalizer();
    assert_eq!(inflected.label(), "inflected(nomn, sing)");
}

#[test]
fn function_function_attribute_normalizer_uses_runtime_normalized_bridge() {
    let attr = Attribute::new("Number", "value", None);
    let normalizer = attr
        .custom(|s: FactValue| s.as_str().unwrap().parse::<i64>().unwrap())
        .custom(|n| n + 1)
        .normalizer();

    let tokenizer = Tokenizer::new();
    let tokens = tokenizer.tokenize("1");
    let chain = Chain::new(tokens, None);
    let value = AttributeResult::new(InterpretationValue::Chain(chain));

    assert_eq!(normalizer.call(&value), 2);
}

#[test]
fn fact_ref_from_conversions_and_name_work() {
    let from_str: FactRef = "City".into();
    let from_string: FactRef = "City".to_string().into();

    assert_eq!(from_str.name(), "City");
    assert_eq!(from_string.name(), "City");
    assert_eq!(from_str, from_string);
}

#[test]
fn attribute_scheme_base_name_and_as_base_work() {
    let scheme = AttributeScheme::new("name", None);
    let single_base = scheme.as_base();
    assert_eq!(single_base.name(), "name");
    assert!(matches!(single_base, AttributeSchemeBase::Single(_)));

    let repeatable = scheme.repeatable();
    let repeatable_base = repeatable.as_base();
    assert_eq!(repeatable_base.name(), "name");
    assert!(matches!(
        repeatable_base,
        AttributeSchemeBase::Repeatable(_)
    ));
}

#[test]
fn attribute_base_and_attribute_accessors_work() {
    let base = AttributeBase::new("City", "name");
    assert_eq!(base.label(), "City.name");

    let attr = Attribute::new("City", "name", Some(FactValue::Str("def".to_string())));
    assert_eq!(attr.base().label(), "City.name");
    assert_eq!(attr.fact().name(), "City");
    assert_eq!(attr.name(), "name");
    assert_eq!(attr.label(), "City.name");
    assert_eq!(
        attr.default_value_ref(),
        Some(&FactValue::Str("def".to_string()))
    );
    assert_eq!(
        attr.default_value(),
        Some(FactValue::Str("def".to_string()))
    );
}

#[test]
fn repeatable_attribute_accessors_and_dispatch_kind_work() {
    let repeatable = RepeatableAttribute::new("City", "alias");
    assert_eq!(repeatable.base().label(), "City.alias");
    assert_eq!(repeatable.fact().name(), "City");
    assert_eq!(repeatable.name(), "alias");
    assert_eq!(repeatable.label(), "City.alias");
    assert_eq!(
        repeatable.interpretator_kind(),
        AttributeInterpretatorKind::AttributeOnly
    );
}

#[test]
fn attribute_transform_builders_and_kinds_work() {
    let attr = Attribute::new("City", "name", None);
    assert_eq!(
        attr.interpretator_kind(),
        AttributeInterpretatorKind::AttributeOnly
    );

    let inflected = attr.clone().inflected_with(&["sing", "nomn", "sing"]);
    assert_eq!(
        inflected.interpretator_kind(),
        AttributeInterpretatorKind::AttributeAndNormalizer
    );
    assert_eq!(MorphAttribute::label(&inflected), "City.name");
    assert_eq!(inflected.normalizer().label(), "inflected(nomn, sing)");

    let normalized = attr.clone().normalized();
    assert_eq!(
        normalized.interpretator_kind(),
        AttributeInterpretatorKind::AttributeAndNormalizer
    );
    assert_eq!(MorphAttribute::label(&normalized), "City.name");
    assert_eq!(normalized.normalizer().label(), "normalized()");
}

#[test]
fn const_and_function_attributes_expose_custom_trait_and_normalizers() {
    let attr = Attribute::new("City", "rank", None);

    let const_attr = attr.clone().constant(42_i64);
    assert_eq!(
        const_attr.interpretator_kind(),
        AttributeInterpretatorKind::AttributeAndNormalizer
    );
    assert_eq!(CustomAttribute::label(&const_attr), "City.rank");
    assert_eq!(const_attr.normalizer().call(()), 42);

    let function_attr = attr.custom(|value: FactValue| value.as_int().unwrap_or_default() + 1);
    assert_eq!(
        function_attr.interpretator_kind(),
        AttributeInterpretatorKind::AttributeAndNormalizer
    );
    assert_eq!(CustomAttribute::label(&function_attr), "City.rank");
    assert_eq!(
        function_attr
            .normalizer()
            .call(&NormalizerResult::from_value(FactValue::from(1))),
        2
    );
}

#[test]
fn function_function_attribute_normalizer_chains_calls() {
    let attr = Attribute::new("Number", "value", None);
    let normalizer = attr
        .custom(|value: FactValue| value.as_int().unwrap_or_default() + 1)
        .custom(|value| value * 2)
        .normalizer();

    assert_eq!(
        normalizer.call(&NormalizerResult::from_value(FactValue::from(3))),
        8
    );
}

#[test]
fn morph_function_attributes_keep_labels_and_kinds() {
    let attr = Attribute::new("City", "name", None);

    let inflected_custom = attr
        .clone()
        .inflected_with(&["nomn", "sing"])
        .custom(|value: String| value.to_uppercase());
    assert_eq!(
        inflected_custom.interpretator_kind(),
        AttributeInterpretatorKind::AttributeAndNormalizer
    );
    assert_eq!(MorphAttribute::label(&inflected_custom), "City.name");
    assert_eq!(CustomAttribute::label(&inflected_custom), "City.name");
    assert_eq!(
        inflected_custom.normalizer().label(CLOSURE_TYPE),
        "inflected(nomn, sing).<lambda>"
    );

    let normalized_custom = attr.normalized().custom(|value: String| value.len());
    assert_eq!(
        normalized_custom.interpretator_kind(),
        AttributeInterpretatorKind::AttributeAndNormalizer
    );
    assert_eq!(MorphAttribute::label(&normalized_custom), "City.name");
    assert_eq!(CustomAttribute::label(&normalized_custom), "City.name");
    assert_eq!(
        normalized_custom.normalizer().label(CLOSURE_TYPE),
        "normalized().<lambda>"
    );
}

#[test]
fn helper_attribute_functions_build_expected_schemes() {
    let plain = attribute("field");
    assert_eq!(plain.name, "field");
    assert_eq!(plain.default, None);

    let with_default = attribute_with_default("flag", FactValue::Bool(true));
    assert_eq!(with_default.name, "flag");
    assert_eq!(with_default.default, Some(FactValue::Bool(true)));
}

#[test]
fn inflected_with_sorts_and_dedups_grammemes() {
    let attr = Attribute::new("City", "name", None);
    let inflected = attr.inflected_with(&["sing", "nomn", "sing", "ablt"]);
    assert_eq!(inflected.grams, vec!["ablt".to_string(), "nomn".to_string(), "sing".to_string()]);
}

#[test]
fn fact_ref_lineage_contains_itself_and_parents() {
    let capital = FactRef::with_parents("Capital", &["City", "Place"]);
    assert!(capital.is_subclass_of(&FactRef::new("Capital")));
    assert!(capital.is_subclass_of(&FactRef::new("Place")));
    assert!(!capital.is_subclass_of(&FactRef::new("Country")));
}

#[test]
fn named_function_label_uses_last_path_segment() {
    let attr = Attribute::new("City", "name", None);
    let normalizer = attr.normalized().custom(|value: String| value.len()).normalizer();
    assert_eq!(normalizer.label("my_crate::parsers::parse_int"), "normalized().parse_int");
}
