use renert::interpretation::attribute::{attribute, Attribute, RepeatableAttribute};
use renert::interpretation::interpretator::{ValueFunction, KeepValue};
use renert::interpretation::normalizer::{
    AttributeResult, Chain, ConstNormalizer, FactResult, FunctionNormalizer, InflectedNormalizer,
    InterpretationValue, NormalizedItem, NormalizedNormalizer, NormalizerResult,
};
use renert::interpretation::{
    fact, prepare_attribute_interpretator, prepare_rule_interpretator,
    prepare_token_interpretator, AnyInterpretator, AttributeInterpretator,
    AttributeNormalizerInterpretator, FactAttribute, FactAttributeInput, FactError,
    FactInterpretator, FactValue, Interpretation, InterpretatorError, InterpretatorFact,
    InterpretatorInput, InterpretatorInputItem, NormalizerCallable, NormalizerInterpretator,
    PreparedAttributeItem, PreparedRuleItem, PreparedTokenItem, Transform,
};
use renert::token::Tokenizer;

const CLOSURE_TYPE: &str = "interpretator_tests::{{closure}}";

fn chain_result(text: &str) -> InterpretationValue {
    InterpretationValue::Chain(Chain::new(Tokenizer::new().tokenize(text), None))
}

#[test]
fn prepared_attribute_item_accepts_repeatable_attribute() {
    let repeatable = RepeatableAttribute::new("City", "aliases");
    let prepared: PreparedAttributeItem = repeatable.into();

    match prepared {
        PreparedAttributeItem::Attribute(attribute) => {
            assert_eq!(attribute.fact().name(), "City");
            assert_eq!(attribute.name(), "aliases");
        }
        _ => panic!("expected plain attribute variant"),
    }
}

#[test]
fn prepare_interpretator_accepts_direct_normalizer_types() {
    let token_interp: AnyInterpretator = prepare_token_interpretator(NormalizedNormalizer.into());
    assert!(matches!(token_interp, AnyInterpretator::Normalizer(_)));
    assert_eq!(token_interp.label(), "normalized()");

    let rule_interp: AnyInterpretator = prepare_rule_interpretator(ConstNormalizer::new("CITY").into());
    assert!(matches!(rule_interp, AnyInterpretator::Normalizer(_)));
    assert_eq!(rule_interp.label(), "const(\"CITY\")");
}

#[test]
fn interpretation_conversions_cover_consts_repeatable_and_custom_transforms() {
    let fact_attr = FactAttribute::new("City", "kind").with_const("capital");
    let interp: Interpretation = Interpretation::from(fact_attr);
    assert_eq!(interp.fact_name, "City");
    assert_eq!(interp.field_name, "kind");
    assert!(interp.has_const());
    assert_eq!(
        interp.const_value,
        Some(FactValue::Str("capital".to_string()))
    );

    let repeatable: Interpretation = Interpretation::from(RepeatableAttribute::new("City", "aliases"));
    assert!(repeatable.repeatable);
    assert!(repeatable.transforms.is_empty());

    let normalized: Interpretation = Interpretation::from(Attribute::new("City", "name", None).normalized());
    assert!(matches!(normalized.transforms[0], Transform::Normalized));

    let inflected: Interpretation = Interpretation::from(
        Attribute::new("City", "name", None).inflected_with(&["nomn", "sing"]),
    );
    assert!(matches!(inflected.transforms[0], Transform::Inflected(_)));

    let custom: Interpretation<ValueFunction<_>> = Interpretation::from(
        Attribute::new("City", "rank", None)
            .custom(|value: FactValue| value.as_str().unwrap().len() as i64),
    );
    assert!(matches!(custom.transforms[0], Transform::Custom(_)));
    if let Transform::Custom(call) = &custom.transforms[0] {
        assert_eq!(
            call.apply(&FactValue::Str("abcd".to_string())),
            Some(FactValue::Int(4))
        );
    }
}

#[test]
fn interpretator_error_display_and_from_fact_error_work() {
    let invalid = InterpretatorError::InvalidInput("bad".to_string());
    assert_eq!(invalid.to_string(), "invalid interpretator input: bad");

    let type_error = InterpretatorError::TypeError("oops".to_string());
    assert_eq!(type_error.to_string(), "interpretator type error: oops");

    let fact_error = InterpretatorError::from(FactError::KeyError("x".to_string()));
    assert_eq!(fact_error.to_string(), "fact error: KeyError(x)");
}

#[test]
fn interpretator_input_single_result_or_chain_covers_basic_paths() {
    let one_token = InterpretatorInput::from_tokens(
        Tokenizer::new().tokenize("LoNDon"),
        Some("CITY".to_string()),
    );
    let as_chain = one_token.single_result_or_chain().unwrap();
    assert_eq!(
        as_chain.normalized_value(),
        FactValue::Str("LoNDon".to_string())
    );
    if let InterpretationValue::Chain(chain) = as_chain {
        assert_eq!(chain.key, Some("CITY".to_string()));
    } else {
        panic!("expected chain");
    }

    let single_result = chain_result("Paris");
    let input = InterpretatorInput::new(
        vec![InterpretatorInputItem::Result(single_result.clone())],
        None,
    );
    assert_eq!(
        input.single_result_or_chain().unwrap().normalized_value(),
        single_result.normalized_value()
    );

    let multi_tokens = InterpretatorInput::from_tokens(Tokenizer::new().tokenize("A B"), None);
    assert_eq!(
        multi_tokens
            .single_result_or_chain()
            .unwrap()
            .normalized_value(),
        FactValue::Str("A B".to_string())
    );

    let mixed = InterpretatorInput::new(
        vec![
            InterpretatorInputItem::Token(Tokenizer::new().tokenize("A")[0].clone()),
            InterpretatorInputItem::Result(chain_result("B")),
        ],
        None,
    );
    let err = mixed.single_result_or_chain().unwrap_err();
    assert!(matches!(err, InterpretatorError::TypeError(_)));
}

#[test]
fn normalizer_callable_supports_const_dynamic_and_type_errors() {
    let const_callable: NormalizerCallable = ConstNormalizer::new(5_i64).into();
    assert_eq!(const_callable.label(), "const(5)");
    assert_eq!(
        const_callable.call(&chain_result("ignored")).unwrap(),
        FactValue::Int(5)
    );

    let normalized_callable: NormalizerCallable = NormalizedNormalizer.into();
    assert_eq!(
        normalized_callable.call(&chain_result("LoNDon")).unwrap(),
        FactValue::Str("london".to_string())
    );
    let err = normalized_callable
        .call(&InterpretationValue::NormalizerResult(
            NormalizerResult::from_value(FactValue::from("x")),
        ))
        .unwrap_err();
    assert!(matches!(err, InterpretatorError::TypeError(_)));
}

#[test]
fn fact_interpretator_merges_matching_inputs_and_ignores_unrelated() {
    let city_scheme = fact(
        "City",
        vec![
            FactAttributeInput::from("name"),
            FactAttributeInput::from(attribute("alias").repeatable()),
        ],
    )
    .with_parents(&["Location"]);
    let interp = FactInterpretator::new(city_scheme.clone());
    assert_eq!(interp.label(), "City");

    let attr_from_parent = InterpretationValue::AttributeResult(
        AttributeResult::new(chain_result("Moscow"))
            .with_attribute(Attribute::new("Location", "name", None)),
    );
    let unrelated_attr = InterpretationValue::AttributeResult(
        AttributeResult::new(chain_result("Ignored"))
            .with_attribute(Attribute::new("Country", "name", None)),
    );

    let capital_scheme =
        fact("Capital", vec![FactAttributeInput::from("name")]).with_parents(&["City"]);
    let mut inner = InterpretatorFact::new(capital_scheme);
    inner.set("name", chain_result("Paris")).unwrap();
    let nested_fact = InterpretationValue::FactResult(FactResult::from_runtime_fact(inner));

    let input = InterpretatorInput::new(
        vec![
            InterpretatorInputItem::Result(attr_from_parent),
            InterpretatorInputItem::Result(nested_fact),
            InterpretatorInputItem::Result(unrelated_attr),
        ],
        None,
    );
    let out = interp.call(input).unwrap();
    let InterpretationValue::FactResult(result) = out else {
        panic!("expected FactResult");
    };
    let fact = result.into_runtime_fact().expect("runtime fact expected");
    let normalized = fact.normalized();
    assert_eq!(
        normalized.get("name"),
        Some(&FactValue::Str("Paris".to_string()))
    );
    assert_eq!(normalized.get("alias"), Some(&FactValue::List(Vec::new())));
}

#[test]
fn attribute_and_normalizer_interpretators_wrap_and_label_results() {
    let attr = Attribute::new("City", "name", None);

    let attr_interp = AttributeInterpretator::new(attr.clone());
    assert_eq!(attr_interp.label(), "City.name");
    let out = attr_interp
        .call(InterpretatorInput::from_tokens(
            Tokenizer::new().tokenize("Moscow"),
            None,
        ))
        .unwrap();
    let InterpretationValue::AttributeResult(result) = out else {
        panic!("expected attribute result");
    };
    assert_eq!(result.attribute, Some(attr.clone()));
    assert_eq!(
        result.value.normalized_value(),
        FactValue::Str("Moscow".to_string())
    );

    let norm_interp: NormalizerInterpretator = NormalizerInterpretator::new(NormalizedNormalizer.into());
    assert_eq!(norm_interp.label(), "normalized()");
    let out = norm_interp
        .call(InterpretatorInput::from_tokens(
            Tokenizer::new().tokenize("LoNDon"),
            None,
        ))
        .unwrap();
    let InterpretationValue::NormalizerResult(result) = out else {
        panic!("expected normalizer result");
    };
    assert_eq!(
        result.normalized_value(),
        FactValue::Str("london".to_string())
    );
    assert!(result.input.is_some());

    let attr_norm_interp: AttributeNormalizerInterpretator =
        AttributeNormalizerInterpretator::new(attr, ConstNormalizer::new("CITY").into());
    assert_eq!(attr_norm_interp.label(), "City.name.const(\"CITY\")");
    let out = attr_norm_interp
        .call(InterpretatorInput::new(Vec::new(), None))
        .unwrap();
    let InterpretationValue::AttributeResult(result) = out else {
        panic!("expected attribute result");
    };
    assert_eq!(
        result.normalized_value(),
        FactValue::Str("CITY".to_string())
    );
}

#[test]
fn any_and_prepare_interpretators_dispatch_variants() {
    let any: AnyInterpretator = AnyInterpretator::Normalizer(NormalizerInterpretator::new(
        ConstNormalizer::new(1).into(),
    ));
    assert_eq!(any.label(), "const(1)");
    let out = any.call(InterpretatorInput::new(Vec::new(), None)).unwrap();
    assert_eq!(out.normalized_value(), FactValue::Int(1));

    let plain_attr: AnyInterpretator = prepare_attribute_interpretator(Attribute::new("City", "name", None).into());
    assert!(matches!(plain_attr, AnyInterpretator::Attribute(_)));

    let morph_attr: AnyInterpretator =
        prepare_attribute_interpretator(Attribute::new("City", "name", None).normalized().into());
    assert!(matches!(
        morph_attr,
        AnyInterpretator::AttributeNormalizer(_)
    ));

    let token_interp: AnyInterpretator =
        prepare_token_interpretator(Attribute::new("City", "name", None).constant("CITY").into());
    assert!(matches!(
        token_interp,
        AnyInterpretator::AttributeNormalizer(_)
    ));

    let fact_scheme = fact("City", vec![FactAttributeInput::from("name")]);
    let rule_fact: AnyInterpretator = prepare_rule_interpretator(fact_scheme.into());
    assert!(matches!(rule_fact, AnyInterpretator::Fact(_)));
}

#[test]
fn normalized_inflected_const_and_custom_analogs() {
    let normalized: NormalizerInterpretator = NormalizerInterpretator::new(NormalizedNormalizer.into());
    let out = normalized
        .call(InterpretatorInput::from_tokens(
            Tokenizer::new().tokenize("LoNDon"),
            None,
        ))
        .unwrap();
    assert_eq!(out.normalized_value(), FactValue::Str("london".to_string()));

    let inflected: NormalizerInterpretator = NormalizerInterpretator::new(
        InflectedNormalizer::new(Some(vec!["nomn".to_string(), "sing".to_string()])).into(),
    );
    let out = inflected
        .call(InterpretatorInput::from_tokens(
            Tokenizer::new().tokenize("LoNDon"),
            None,
        ))
        .unwrap();
    assert_eq!(out.normalized_value(), FactValue::Str("london".to_string()));

    let const_interp: NormalizerInterpretator = NormalizerInterpretator::new(ConstNormalizer::new(1_i64).into());
    let out = const_interp
        .call(InterpretatorInput::new(Vec::new(), None))
        .unwrap();
    assert_eq!(out.normalized_value(), FactValue::Int(1));

    let custom = NormalizerInterpretator::new(NormalizerCallable::from_function(
        FunctionNormalizer::new(|v: FactValue| v.as_str().unwrap().len() as i64),
        CLOSURE_TYPE,
    ));
    let out = custom
        .call(InterpretatorInput::from_tokens(
            Tokenizer::new().tokenize("abc"),
            None,
        ))
        .unwrap();
    assert_eq!(out.normalized_value(), FactValue::Int(3));
}

#[test]
fn fact_interpretator_reports_unknown_attribute_of_its_lineage() {
    let scheme = fact("City", vec![FactAttributeInput::from("name")]);
    let interp = FactInterpretator::new(scheme);
    let bad = InterpretationValue::AttributeResult(
        AttributeResult::new(chain_result("X")).with_attribute(Attribute::new("City", "size", None)),
    );
    let err = interp
        .call(InterpretatorInput::new(vec![InterpretatorInputItem::Result(bad)], None))
        .unwrap_err();
    assert_eq!(err, InterpretatorError::FactError(FactError::KeyError("size".to_string())));
}

#[test]
fn mixed_input_message_counts_items() {
    let mixed = InterpretatorInput::new(
        vec![
            InterpretatorInputItem::Result(chain_result("A")),
            InterpretatorInputItem::Result(chain_result("B")),
            InterpretatorInputItem::Token(Tokenizer::new().tokenize("C")[0].clone()),
        ],
        None,
    );
    let err = mixed.single_result_or_chain().unwrap_err();
    assert_eq!(
        err,
        InterpretatorError::TypeError(
            "expected all tokens or a single interpretator item, got 3 items".to_string()
        )
    );
}

#[test]
fn morph_custom_normalizer_rejects_values_that_are_not_chains() {
    let callable = NormalizerCallable::from_morph_function(
        NormalizedNormalizer.custom(|s: String| s.len() as i64),
        CLOSURE_TYPE,
    );
    assert_eq!(callable.label(), "normalized().<lambda>");
    assert_eq!(callable.call(&chain_result("Abc")).unwrap(), FactValue::Int(3));
    let err = callable
        .call(&InterpretationValue::NormalizerResult(NormalizerResult::from_value(FactValue::Int(1))))
        .unwrap_err();
    assert_eq!(
        err,
        InterpretatorError::TypeError("morph normalizer expects token chain".to_string())
    );
}

#[test]
fn keep_value_leaves_values_unchanged() {
    assert_eq!(KeepValue.apply(&FactValue::Int(3)), None);
    let rule: PreparedRuleItem = PreparedRuleItem::Fact(fact("A", Vec::new()));
    assert!(matches!(prepare_rule_interpretator(rule), AnyInterpretator::Fact(_)));
    let token: PreparedTokenItem = InflectedNormalizer::new(None).into();
    assert_eq!(prepare_token_interpretator(token).label(), "inflected()");
}

#[test]
fn fact_interpretator_reports_the_first_refused_attribute() {
    let scheme = fact("City", vec![FactAttributeInput::from("name")]);
    let interp = FactInterpretator::new(scheme);
    let item = |attr: &str| {
        InterpretatorInputItem::Result(InterpretationValue::AttributeResult(
            AttributeResult::new(chain_result("X")).with_attribute(Attribute::new("City", attr, None)),
        ))
    };
    let err = interp
        .call(InterpretatorInput::new(vec![item("name"), item("size"), item("area")], None))
        .unwrap_err();
    assert_eq!(err, InterpretatorError::FactError(FactError::KeyError("size".to_string())));
}
