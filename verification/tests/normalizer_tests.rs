use renert::interpretation::attribute::Attribute;
use renert::interpretation::normalizer::{
    AttributeResult, Chain, ConstNormalizer, FactResult, FunctionNormalizer, InflectedNormalizer,
    InterpretationValue, NormalizedItem, NormalizedNormalizer, NormalizerResult, RuntimeItem,
};
use renert::interpretation::{fact, FactAttributeInput, FactValue, InterpretatorFact};
use renert::span::Span;
use renert::token::Tokenizer;

const CLOSURE_TYPE: &str = "normalizer_tests::{{closure}}";

fn runtime_fact_with_name(name: &str) -> InterpretatorFact {
    let scheme = fact("City", vec![FactAttributeInput::from("name")]);
    let mut runtime = InterpretatorFact::new(scheme);
    let tokens = Tokenizer::new().tokenize(name);
    let chain = Chain::new(tokens, None);

    runtime.set("name", chain.into()).unwrap();
    runtime
}

#[test]
fn normalized_normalizer_uses_key_when_set() {
    let tokenizer = Tokenizer::new();
    let tokens = tokenizer.tokenize("Москва");
    let chain = Chain::new(tokens, Some("CITY".to_string()));

    let normalizer = NormalizedNormalizer;
    assert_eq!(normalizer.call(&chain), "CITY");
    assert_eq!(normalizer.label(), "normalized()");
}

#[test]
fn normalized_normalizer_uses_tokens_when_key_absent() {
    let tokenizer = Tokenizer::new();
    let tokens = tokenizer.tokenize("LoNDon");
    let chain = Chain::new(tokens, None);

    let normalizer = NormalizedNormalizer;
    assert_eq!(normalizer.call(&chain), "london");
}

#[test]
fn const_normalizer_returns_value() {
    let normalizer = ConstNormalizer::new(42_i64);
    assert_eq!(normalizer.call(()), 42);
    assert_eq!(normalizer.label(), "const(42)");
}

#[test]
fn function_normalizer_and_custom_chain() {
    let tokenizer = Tokenizer::new();
    let tokens = tokenizer.tokenize("moscow");
    let chain = Chain::new(tokens, None);

    let normalizer =
        FunctionNormalizer::new(|value: FactValue| value.as_str().unwrap().to_uppercase());
    assert_eq!(normalizer.call(&chain), "MOSCOW");

    let chained = normalizer.custom(|value: String| format!("[{value}]"));
    assert_eq!(chained.call(&chain), "[MOSCOW]");
}

#[test]
fn morph_function_normalizer_from_normalized() {
    let tokenizer = Tokenizer::new();
    let tokens = tokenizer.tokenize("Moscow");
    let chain = Chain::new(tokens, None);

    let normalizer = NormalizedNormalizer.custom(|value: String| value.len());
    assert_eq!(normalizer.call(&chain), 6);
}

#[test]
fn inflected_normalizer_label() {
    let normalizer =
        InflectedNormalizer::new(Some(vec!["nomn".to_string(), "sing".to_string()]));
    assert_eq!(normalizer.label(), "inflected(nomn, sing)");
}

#[test]
fn function_normalizer_accepts_attribute_result_like_yargy() {
    let tokenizer = Tokenizer::new();
    let tokens = tokenizer.tokenize("1");
    let chain = Chain::new(tokens, None);
    let attr_result = AttributeResult::new(InterpretationValue::Chain(chain));

    let normalizer = FunctionNormalizer::new(|value: FactValue| {
        value.as_str().unwrap().parse::<i64>().unwrap()
    });
    assert_eq!(normalizer.call(&attr_result), 1);
}

#[test]
fn function_normalizer_accepts_nested_runtime_result() {
    let tokenizer = Tokenizer::new();
    let tokens = tokenizer.tokenize("2");
    let chain = Chain::new(tokens, None);

    let value = InterpretationValue::NormalizerResult(NormalizerResult::from_nested(
        InterpretationValue::AttributeResult(AttributeResult::new(InterpretationValue::Chain(
            chain,
        ))),
    ));

    let normalizer = FunctionNormalizer::new(|value: FactValue| {
        value.as_str().unwrap().parse::<i64>().unwrap()
    });
    assert_eq!(normalizer.call(&value), 2);
}

#[test]
fn chain_runtime_projection_and_spans() {
    let tokenizer = Tokenizer::new();
    let chain = Chain::new(tokenizer.tokenize("A B"), None);

    assert_eq!(chain.normalized(), "A B");
    assert_eq!(chain.normalized_value(), FactValue::Str("A B".to_string()));
    assert_eq!(chain.as_json_value(), FactValue::Str("A B".to_string()));
    assert_eq!(chain.spans(), vec![Span::new(0, 3)]);

    let empty_chain = Chain::new(Vec::new(), None);
    assert!(empty_chain.spans().is_empty());
}

#[test]
fn fact_result_builders_cover_value_and_json_paths() {
    let plain = FactResult::new("name").with_spans(vec![Span::new(2, 6)]);
    assert_eq!(plain.normalized_value(), FactValue::Str("name".to_string()));
    assert_eq!(plain.as_json_value(), FactValue::Str("name".to_string()));
    assert_eq!(plain.spans(), vec![Span::new(2, 6)]);

    let from_json = FactResult::from_json(FactValue::Int(7));
    assert_eq!(from_json.normalized, "7");
    assert_eq!(from_json.normalized_value(), FactValue::Int(7));
    assert_eq!(from_json.as_json_value(), FactValue::Int(7));

    let with_json = FactResult::new("old").with_json(FactValue::Bool(true));
    assert_eq!(with_json.normalized, "true");
    assert_eq!(with_json.normalized_value(), FactValue::Bool(true));
    assert_eq!(with_json.as_json_value(), FactValue::Bool(true));
}

#[test]
fn fact_result_from_runtime_fact_uses_runtime_fallbacks() {
    let runtime = runtime_fact_with_name("Moscow");
    let result = FactResult::from_runtime_fact(runtime);

    let expected = FactValue::Object(vec![(
        "name".to_string(),
        FactValue::Str("Moscow".to_string()),
    )]);

    assert_eq!(result.as_json_value(), expected.clone());
    assert_eq!(result.normalized_value(), expected);
    assert_eq!(result.spans(), vec![Span::new(0, 6)]);
}

#[test]
fn fact_result_runtime_without_cached_json_materializes_json_lazily() {
    let runtime = runtime_fact_with_name("Paris");
    let result = FactResult {
        normalized: String::new(),
        as_json: None,
        spans: Vec::new(),
        runtime_fact: Some(Box::new(runtime)),
    };

    assert_eq!(
        result.normalized_value(),
        FactValue::Object(vec![(
            "name".to_string(),
            FactValue::Str("Paris".to_string())
        )])
    );

    assert_eq!(
        result.as_json_value(),
        FactValue::Object(vec![(
            "name".to_string(),
            FactValue::Str("Paris".to_string())
        )])
    );
    assert_eq!(result.spans(), vec![Span::new(0, 5)]);
}

#[test]
fn fact_result_runtime_reuses_runtime_fact_cached_projections() {
    let runtime = runtime_fact_with_name("Berlin");
    let result = FactResult::from_runtime_fact(runtime);

    let expected = FactValue::Object(vec![(
        "name".to_string(),
        FactValue::Str("Berlin".to_string()),
    )]);

    assert_eq!(result.as_json_value(), expected.clone());
    assert_eq!(result.as_json_value(), expected.clone());
    assert_eq!(result.normalized_value(), expected);
    assert_eq!(result.spans(), vec![Span::new(0, 6)]);
    assert_eq!(result.spans(), vec![Span::new(0, 6)]);
}

#[test]
fn attribute_result_delegates_and_keeps_attribute() {
    let tokenizer = Tokenizer::new();
    let chain = Chain::new(tokenizer.tokenize("London"), None);
    let attribute = Attribute::new("City", "name", None);

    let result = AttributeResult::new(chain.into()).with_attribute(attribute.clone());
    assert_eq!(result.attribute, Some(attribute));
    assert_eq!(
        result.normalized_value(),
        FactValue::Str("London".to_string())
    );
    assert_eq!(result.as_json_value(), FactValue::Str("London".to_string()));
    assert_eq!(result.spans(), vec![Span::new(0, 6)]);
}

#[test]
fn normalizer_result_supports_value_nested_and_input_spans() {
    let from_text = NormalizerResult::from_text("RAW");
    assert_eq!(
        from_text.normalized_value(),
        FactValue::Str("RAW".to_string())
    );
    assert_eq!(from_text.as_json_value(), FactValue::Str("RAW".to_string()));
    assert!(from_text.spans().is_empty());

    let tokenizer = Tokenizer::new();
    let nested_chain = Chain::new(tokenizer.tokenize("A B"), None);
    let nested = NormalizerResult::from_nested(nested_chain.into());
    assert_eq!(nested.normalized_value(), FactValue::Str("A B".to_string()));
    assert_eq!(nested.as_json_value(), FactValue::Str("A B".to_string()));
    assert_eq!(nested.spans(), vec![Span::new(0, 3)]);

    let value_chain = Chain::new(tokenizer.tokenize("X"), None);
    let input_chain = Chain::new(tokenizer.tokenize("input value"), None);
    let with_input = NormalizerResult::from_nested(value_chain.into())
        .with_input(InterpretationValue::Chain(input_chain));
    assert_eq!(with_input.spans(), vec![Span::new(0, 11)]);
}

#[test]
fn append_spans_matches_public_spans_for_nested_runtime_values() {
    let tokenizer = Tokenizer::new();
    let chain = Chain::new(tokenizer.tokenize("A B"), None);
    let nested = InterpretationValue::NormalizerResult(NormalizerResult::from_nested(
        InterpretationValue::AttributeResult(AttributeResult::new(InterpretationValue::Chain(
            chain,
        ))),
    ));

    let mut appended = Vec::new();
    nested.append_spans(&mut appended);

    assert_eq!(appended, nested.spans());
    assert_eq!(appended, vec![Span::new(0, 3)]);
}

#[test]
fn interpretation_value_from_impls_preserve_runtime_behavior() {
    let tokenizer = Tokenizer::new();
    let chain = Chain::new(tokenizer.tokenize("abc"), None);
    let chain_value: InterpretationValue = chain.into();
    assert_eq!(
        chain_value.normalized_value(),
        FactValue::Str("abc".to_string())
    );

    let fact_value: InterpretationValue = FactResult::from_json(FactValue::Int(3)).into();
    assert_eq!(fact_value.normalized_value(), FactValue::Int(3));
    assert_eq!(fact_value.as_json_value(), FactValue::Int(3));

    let attr_value: InterpretationValue = AttributeResult::new(chain_value).into();
    assert_eq!(
        attr_value.normalized_value(),
        FactValue::Str("abc".to_string())
    );

    let norm_value: InterpretationValue = NormalizerResult::from_value(FactValue::from(5)).into();
    assert_eq!(norm_value.normalized_value(), FactValue::Int(5));
}

#[test]
fn inflected_normalizer_without_grams_has_stable_label_and_call() {
    let tokenizer = Tokenizer::new();
    let chain = Chain::new(tokenizer.tokenize("LoNDon"), None);
    let normalizer = InflectedNormalizer::new(None);

    assert_eq!(normalizer.label(), "inflected()");
    assert_eq!(normalizer.call(&chain), "london");
}

#[test]
fn labels_for_function_and_morph_normalizers_use_lambda_placeholder() {
    let function = FunctionNormalizer::new(|value: FactValue| value.to_string());
    assert_eq!(function.label(CLOSURE_TYPE), "custom(<lambda>)");

    let chained = function.custom(|value: String| value.len());
    assert_eq!(
        chained.label(CLOSURE_TYPE, CLOSURE_TYPE),
        "custom(<lambda>).custom(<lambda>)"
    );

    let morph = NormalizedNormalizer.custom(|value: String| value.len());
    assert_eq!(morph.label(CLOSURE_TYPE), "normalized().<lambda>");

    let inflected_morph = InflectedNormalizer::new(None).custom(|value: String| value.len());
    assert_eq!(inflected_morph.label(CLOSURE_TYPE), "inflected().<lambda>");
}

#[test]
fn const_normalizer_label_quotes_strings() {
    assert_eq!(ConstNormalizer::new("CITY").label(), "const(\"CITY\")");
}

#[test]
fn chain_of_several_tokens_spans_from_first_start_to_last_stop() {
    let chain = Chain::new(Tokenizer::new().tokenize("  ab , cd"), None);
    assert_eq!(chain.normalized(), "ab , cd");
    assert_eq!(chain.spans(), vec![Span::new(2, 9)]);
}

#[test]
fn clone_keeps_projections() {
    let value = InterpretationValue::FactResult(FactResult::from_runtime_fact(runtime_fact_with_name("Oslo")));
    let copy = value.clone();
    assert_eq!(copy.as_json_value(), value.as_json_value());
    assert_eq!(copy.spans(), value.spans());
}
