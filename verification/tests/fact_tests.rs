use renert::interpretation::attribute::{attribute, attribute_with_default, AttributeScheme};
use renert::interpretation::interpretator::ValueFunction;
use renert::interpretation::normalizer::{AttributeResult, Chain, FactResult, NormalizerResult};
use renert::interpretation::{
    fact, field_to_value, prepare_attribute, set_field_value, try_fact, Fact, FactAttribute,
    FactAttributeInput, FactError, FactField, FactMeta, FactRecord, FactRecordRaw, FactScheme,
    FactValue, FieldType, Interpretation, InterpretationValue, InterpretatorFact,
    PreparedAttributeScheme, RuntimeAttributeValue, Transform,
};
use renert::span::Span;
use renert::token::{Token, TokenType};

#[derive(Debug, Clone, Default, PartialEq)]
struct PersonFact {
    name: Option<String>,
    age: Option<i64>,
}

impl Fact for PersonFact {
    fn fact_name(&self) -> &str {
        "PersonFact"
    }

    fn field_names(&self) -> &[&str] {
        &["name", "age"]
    }

    fn get_field(&self, name: &str) -> Option<FactValue> {
        match name {
            "name" => field_to_value(&self.name),
            "age" => field_to_value(&self.age),
            _ => None,
        }
    }

    fn set_field(&mut self, name: &str, value: FactValue) -> bool {
        match name {
            "name" => set_field_value(&mut self.name, value),
            "age" => set_field_value(&mut self.age, value),
            _ => false,
        }
    }
}

#[derive(Debug, Clone, Default, PartialEq)]
struct City {
    name: Option<String>,
}

impl FactMeta for City {
    const NAME: &'static str = "City";

    fn scheme() -> Option<FactScheme> {
        Some(fact("City", vec![FactAttributeInput::from("name")]))
    }
}

fn city_name() -> FactField<City> {
    FactField::new("name")
}

fn token(value: &str, start: usize, stop: usize, token_type: TokenType) -> Token {
    Token::new(value, Span::new(start, stop), token_type)
}

fn kwargs(pairs: &[(&str, FactValue)]) -> Vec<(String, FactValue)> {
    pairs.iter().map(|(k, v)| (k.to_string(), v.clone())).collect()
}

#[test]
fn test_fact_trait_for_typed_fact() {
    let mut fact = PersonFact::default();
    assert!(fact.set_field("name", FactValue::Str("Иван".into())));
    assert!(fact.set_field("age", FactValue::Int(42)));

    assert_eq!(fact.fact_name(), "PersonFact");
    assert_eq!(fact.field_names(), &["name", "age"]);
    assert_eq!(fact.get_field("name"), Some(FactValue::Str("Иван".into())));
    assert_eq!(fact.get_field("age"), Some(FactValue::Int(42)));
}

#[test]
fn test_fact_attribute_creation() {
    let attr = FactAttribute::new("City", "name");
    assert_eq!(attr.fact_name(), "City");
    assert_eq!(attr.field_name(), "name");
    assert!(!attr.has_const());
}

#[test]
fn test_fact_attribute_const() {
    let attr = FactAttribute::new("Street", "type").with_const("street");

    assert!(attr.has_const());
    assert_eq!(attr.get_const(), Some("street"));
}

#[test]
fn test_fact_field() {
    let field: FactField<()> = FactField::new("test");
    assert_eq!(field.name(), "test");

    let cloned = field;
    assert_eq!(cloned.name(), "test");
}

#[test]
fn test_field_type_string() {
    let s = String::from("test");
    let value = s.to_fact_value();

    assert_eq!(value, FactValue::Str("test".into()));

    let restored = String::from_fact_value(value);
    assert_eq!(restored, Some("test".into()));
}

#[test]
fn test_field_type_i64() {
    let n: i64 = 42;
    let value = n.to_fact_value();

    assert_eq!(value, FactValue::Int(42));

    let restored = i64::from_fact_value(value);
    assert_eq!(restored, Some(42));
}

#[test]
fn test_field_type_bool() {
    let b = true;
    let value = b.to_fact_value();

    assert_eq!(value, FactValue::Bool(true));

    let restored = bool::from_fact_value(value);
    assert_eq!(restored, Some(true));
}

#[test]
fn test_field_type_mismatch() {
    let value = FactValue::Str("not a number".into());
    let result = i64::from_fact_value(value);
    assert_eq!(result, None);
}

#[test]
fn test_fact_field_normalized() {
    let attr = city_name().normalized();
    assert_eq!(attr.attribute.fact().name(), "City");
    assert_eq!(attr.attribute.name(), "name");

    let interp: Interpretation = attr.into();
    assert_eq!(interp.fact_name, "City");
    assert_eq!(interp.field_name, "name");
    assert_eq!(interp.transforms.len(), 1);
    assert!(matches!(interp.transforms[0], Transform::Normalized));
}

#[test]
fn test_fact_field_inflected() {
    static FORMS: &[&str] = &["city", "town"];
    let attr = city_name().inflected(FORMS);

    assert_eq!(attr.attribute.fact().name(), "City");
    assert_eq!(attr.attribute.name(), "name");
    assert!(attr.grams.iter().any(|g| g == "city"));
    assert!(attr.grams.iter().any(|g| g == "town"));

    let interp: Interpretation = attr.into();
    assert_eq!(interp.transforms.len(), 1);
    assert!(matches!(
        &interp.transforms[0],
        Transform::Inflected(forms)
            if forms.len() == 2
            && forms.iter().any(|f| f == "city")
            && forms.iter().any(|f| f == "town")
    ));
}

#[test]
fn test_fact_field_custom() {
    let attr = city_name().custom(|s: FactValue| s.as_str().unwrap().to_uppercase());
    let interp: Interpretation<ValueFunction<_>> = attr.into();
    assert!(matches!(interp.transforms[0], Transform::Custom(_)));
}

#[test]
fn test_fact_field_repeatable() {
    let attr = city_name().repeatable();
    assert_eq!(attr.fact().name(), "City");
    assert_eq!(attr.name(), "name");

    let interp: Interpretation = attr.into();
    assert!(interp.repeatable);
    assert!(interp.transforms.is_empty());
}

#[test]
fn test_fact_field_chained_transforms() {
    static FORMS: &[&str] = &["city"];

    let attr = city_name()
        .inflected(FORMS)
        .custom(|s: String| s.to_uppercase());

    let interp: Interpretation<_> = attr.into();
    assert!(!interp.repeatable);
    assert_eq!(interp.transforms.len(), 2);
    assert!(matches!(interp.transforms[0], Transform::Inflected(_)));
    assert!(matches!(interp.transforms[1], Transform::Custom(_)));
}

#[test]
fn yargy_prepare_attribute_from_name() {
    let prepared = prepare_attribute("name".into());
    match prepared {
        PreparedAttributeScheme::Single(scheme) => {
            assert_eq!(scheme.name, "name");
            assert_eq!(scheme.default, None);
        }
        _ => panic!("expected single scheme"),
    }
}

#[test]
fn yargy_fact_scheme_and_record_defaults() {
    let scheme = fact(
        "City",
        vec![
            FactAttributeInput::from("name"),
            FactAttributeInput::from(attribute("alias").repeatable()),
        ],
    );

    let record = scheme.try_new_record(Vec::new()).unwrap();
    assert_eq!(record.get("name"), None);
    assert_eq!(record.get("alias"), Some(&FactValue::List(Vec::new())));
}

#[test]
fn yargy_key_error_for_unknown_field() {
    let scheme = fact("City", vec![FactAttributeInput::from("name")]);
    let kwargs = kwargs(&[("unknown", FactValue::Str("x".to_string()))]);
    let err = scheme.try_new_record(kwargs).unwrap_err();
    assert_eq!(err, FactError::KeyError("unknown".to_string()));
}

#[test]
fn yargy_interpretator_fact_normalized_and_as_json() {
    let scheme = fact("City", vec![FactAttributeInput::from("name")]);
    let mut runtime = InterpretatorFact::new(scheme.clone());

    let chain = Chain::new(vec![token("Moscow", 0, 6, TokenType::Latin)], None);
    runtime
        .set(
            "name",
            InterpretationValue::AttributeResult(AttributeResult::new(chain.into())),
        )
        .unwrap();

    let normalized = runtime.normalized();
    assert_eq!(
        normalized.get("name"),
        Some(&FactValue::Str("Moscow".to_string()))
    );

    let as_json = normalized.as_json();
    assert_eq!(
        as_json,
        vec![("name".to_string(), FactValue::Str("Moscow".to_string()))]
    );
}

#[test]
fn yargy_interpretator_fact_collects_spans() {
    let scheme = fact(
        "City",
        vec![FactAttributeInput::from(attribute("name").repeatable())],
    );
    let mut runtime = InterpretatorFact::new(scheme);

    runtime
        .set(
            "name",
            InterpretationValue::Chain(Chain::new(vec![token("Moscow", 0, 6, TokenType::Russian)], None)),
        )
        .unwrap();
    runtime
        .set(
            "name",
            InterpretationValue::Chain(Chain::new(vec![token("Tver", 7, 12, TokenType::Russian)], None)),
        )
        .unwrap();

    let spans = runtime.spans();
    assert_eq!(spans, vec![Span::new(0, 6), Span::new(7, 12)]);
}

#[test]
fn yargy_interpretator_fact_preserves_fact_result_json_and_spans() {
    let scheme = fact("City", vec![FactAttributeInput::from("rank")]);
    let mut runtime = InterpretatorFact::new(scheme);

    let value = FactResult::from_json(FactValue::Int(7)).with_spans(vec![Span::new(5, 6)]);
    runtime
        .set("rank", InterpretationValue::FactResult(value))
        .unwrap();

    let normalized = runtime.normalized();
    assert_eq!(normalized.get("rank"), Some(&FactValue::Int(7)));
    assert_eq!(normalized.spans(), vec![Span::new(5, 6)]);
    assert_eq!(
        normalized.as_json(),
        vec![("rank".to_string(), FactValue::Int(7))]
    );
}

#[test]
fn yargy_fact_record_preserves_values_and_defaults() {
    let scheme = fact(
        "City",
        vec![
            FactAttributeInput::from("name"),
            FactAttributeInput::from(attribute("alias").repeatable()),
        ],
    );

    let kwargs = kwargs(&[("name", FactValue::Str("Moscow".to_string()))]);
    let record = scheme.try_new_record(kwargs).unwrap();

    assert_eq!(record.name(), "City");
    assert_eq!(
        record.get("name"),
        Some(&FactValue::Str("Moscow".to_string()))
    );
    assert_eq!(record.get("alias"), Some(&FactValue::List(Vec::new())));
}

#[test]
fn yargy_interpretator_fact_normalized_record_keeps_values() {
    let scheme = fact("City", vec![FactAttributeInput::from("name")]);
    let mut runtime = InterpretatorFact::new(scheme);

    runtime
        .set(
            "name",
            InterpretationValue::Chain(Chain::new(vec![token("Moscow", 0, 6, TokenType::Latin)], None)),
        )
        .unwrap();

    let record = runtime.normalized();
    assert_eq!(record.name(), "City");
    assert_eq!(
        record.get("name"),
        Some(&FactValue::Str("Moscow".to_string()))
    );
}

#[test]
fn yargy_field_helpers_convert_and_validate_types() {
    let value = field_to_value(&Some(5_i64));
    assert_eq!(value, Some(FactValue::Int(5)));

    let mut field: Option<i64> = None;
    assert!(set_field_value(&mut field, FactValue::Int(7)));
    assert_eq!(field, Some(7));

    assert!(!set_field_value(
        &mut field,
        FactValue::Str("bad".to_string())
    ));
    assert_eq!(field, Some(7));
}

#[test]
fn yargy_fact_error_display() {
    let err = FactError::KeyError("name".to_string());
    assert_eq!(err.to_string(), "KeyError(name)");
}

#[test]
fn yargy_prepare_attribute_variants_and_constructed_accessors() {
    let single = prepare_attribute(
        AttributeScheme::new("name", Some(FactValue::Str("x".to_string()))).into(),
    );
    assert_eq!(single.name(), "name");
    let constructed_single = single.construct("City");
    assert_eq!(constructed_single.name(), "name");
    assert!(!constructed_single.is_repeatable());
    assert_eq!(
        constructed_single.default_value_ref(),
        Some(&FactValue::Str("x".to_string()))
    );

    let repeatable_scheme = AttributeScheme::new("alias", None).repeatable();
    let repeatable = prepare_attribute(repeatable_scheme.clone().into());
    assert_eq!(repeatable.name(), "alias");
    let constructed_repeatable = repeatable.construct("City");
    assert!(constructed_repeatable.is_repeatable());
    assert_eq!(
        constructed_repeatable.default_value(),
        Some(FactValue::List(Vec::new()))
    );
    assert_eq!(constructed_repeatable.default_value_ref(), None);

    let from_base = prepare_attribute(repeatable_scheme.as_base().into());
    assert!(matches!(from_base, PreparedAttributeScheme::Repeatable(_)));
}

#[test]
fn yargy_fact_scheme_hierarchy_attribute_lookup_and_call() {
    let entity = FactScheme::new("Entity");
    let city = fact(
        "City",
        vec![
            FactAttributeInput::from("name"),
            FactAttributeInput::from(attribute_with_default(
                "kind",
                FactValue::Str("city".to_string()),
            )),
        ],
    )
    .with_parents(&["Entity"]);

    assert!(city.is_subclass_of(&entity));
    assert!(city.attribute("name").is_some());
    assert!(city.attribute("missing").is_none());

    let kwargs = kwargs(&[("name", FactValue::Str("Moscow".to_string()))]);
    let record = city.call(kwargs).unwrap();
    assert_eq!(
        record.get("name"),
        Some(&FactValue::Str("Moscow".to_string()))
    );
    assert_eq!(
        record.get("kind"),
        Some(&FactValue::Str("city".to_string()))
    );
}

#[test]
#[should_panic(expected = "duplicate fact attribute: name")]
fn yargy_fact_panics_on_duplicate_attribute() {
    let result = try_fact(
        "City",
        vec![
            FactAttributeInput::from("name"),
            FactAttributeInput::from("name"),
        ],
    );
    if let Err(key) = result {
        panic!("duplicate fact attribute: {key}");
    }
}

#[test]
fn yargy_fact_record_json_without_raw_and_sorted_spans_with_raw() {
    let scheme = fact(
        "City",
        vec![
            FactAttributeInput::from("name"),
            FactAttributeInput::from("rank"),
        ],
    );
    let kwargs = kwargs(&[("name", FactValue::Str("Moscow".to_string()))]);
    let record = scheme.try_new_record(kwargs).unwrap();
    assert_eq!(
        record.as_json(),
        vec![("name".to_string(), FactValue::Str("Moscow".to_string()))]
    );

    let raw_record = FactRecord {
        scheme: record.scheme.clone(),
        attributes: record.attributes.clone(),
        raw: Some(FactRecordRaw {
            as_json: vec![("name".to_string(), FactValue::Str("RAW".to_string()))],
            spans: vec![Span::new(7, 9), Span::new(1, 3)],
        }),
        nested: Vec::new(),
    };
    assert_eq!(
        raw_record.as_json(),
        vec![("name".to_string(), FactValue::Str("RAW".to_string()))]
    );
    assert_eq!(raw_record.spans(), vec![Span::new(1, 3), Span::new(7, 9)]);
}

#[test]
fn yargy_interpretator_fact_new_set_error_merge_and_defaults() {
    let scheme = fact(
        "City",
        vec![
            FactAttributeInput::from(attribute_with_default(
                "kind",
                FactValue::Str("city".to_string()),
            )),
            FactAttributeInput::from("name"),
            FactAttributeInput::from(attribute("alias").repeatable()),
        ],
    );

    let mut runtime = InterpretatorFact::new(scheme.clone());
    assert!(runtime.is_repeatable("alias"));
    assert!(matches!(
        runtime.get_runtime("kind"),
        Some(RuntimeAttributeValue::Plain(None))
    ));
    assert!(matches!(
        runtime.get_runtime("alias"),
        Some(RuntimeAttributeValue::Repeatable(values)) if values.is_empty()
    ));

    let bad = runtime.set(
        "unknown",
        InterpretationValue::Chain(Chain::new(Vec::new(), None)),
    );
    assert_eq!(bad, Err(FactError::KeyError("unknown".to_string())));

    runtime
        .set(
            "name",
            InterpretationValue::Chain(Chain::new(vec![token("Moscow", 0, 6, TokenType::Latin)], None)),
        )
        .unwrap();

    let mut other = InterpretatorFact::new(scheme);
    other
        .set(
            "alias",
            InterpretationValue::Chain(Chain::new(vec![token("Capital", 7, 14, TokenType::Latin)], None)),
        )
        .unwrap();

    runtime.merge(&other);
    let normalized = runtime.normalized();
    assert_eq!(
        normalized.get("kind"),
        Some(&FactValue::Str("city".to_string()))
    );
    assert_eq!(
        normalized.get("name"),
        Some(&FactValue::Str("Moscow".to_string()))
    );
    assert_eq!(
        normalized.get("alias"),
        Some(&FactValue::List(vec![FactValue::Str(
            "Capital".to_string()
        )]))
    );
}

#[test]
fn yargy_interpretator_fact_invalidates_cached_projections_after_set() {
    let scheme = fact("City", vec![FactAttributeInput::from("name")]);
    let mut runtime = InterpretatorFact::new(scheme);

    assert_eq!(runtime.as_json(), Vec::new());
    assert!(runtime.spans().is_empty());

    runtime
        .set(
            "name",
            InterpretationValue::Chain(Chain::new(vec![token("Moscow", 0, 6, TokenType::Latin)], None)),
        )
        .unwrap();

    assert_eq!(
        runtime.as_json(),
        vec![("name".to_string(), FactValue::Str("Moscow".to_string()))]
    );
    assert_eq!(runtime.spans(), vec![Span::new(0, 6)]);
}

#[test]
fn record_text_lists_attributes_in_scheme_order() {
    let scheme = fact(
        "Date",
        vec![
            FactAttributeInput::from("year"),
            FactAttributeInput::from("month"),
            FactAttributeInput::from(attribute("tags").repeatable()),
        ],
    );
    let record = scheme
        .try_new_record(kwargs(&[("year", FactValue::Str("2015".to_string()))]))
        .unwrap();
    assert_eq!(
        record.to_string(),
        "Date(\n    year='2015',\n    month=None,\n    tags=[]\n)"
    );
}

#[test]
fn record_refuses_first_unknown_key() {
    let scheme = fact("City", vec![FactAttributeInput::from("name")]);
    let err = scheme
        .try_new_record(kwargs(&[
            ("name", FactValue::Int(1)),
            ("bad", FactValue::Int(2)),
            ("worse", FactValue::Int(3)),
        ]))
        .unwrap_err();
    assert_eq!(err, FactError::KeyError("bad".to_string()));
}

#[test]
fn set_on_plain_attribute_replaces_the_value() {
    let scheme = fact("City", vec![FactAttributeInput::from("name")]);
    let mut runtime = InterpretatorFact::new(scheme);
    runtime
        .set("name", InterpretationValue::Chain(Chain::new(vec![token("A", 0, 1, TokenType::Latin)], None)))
        .unwrap();
    runtime
        .set("name", InterpretationValue::Chain(Chain::new(vec![token("B", 2, 3, TokenType::Latin)], None)))
        .unwrap();
    assert!(runtime.contains_modified("name"));
    assert_eq!(
        runtime.as_json(),
        vec![("name".to_string(), FactValue::Str("B".to_string()))]
    );
    assert_eq!(runtime.spans(), vec![Span::new(2, 3)]);
}

#[test]
fn merge_ignores_attributes_the_target_lacks() {
    let target_scheme = fact("City", vec![FactAttributeInput::from("name")]);
    let source_scheme = fact(
        "Capital",
        vec![FactAttributeInput::from("name"), FactAttributeInput::from("country")],
    );
    let mut target = InterpretatorFact::new(target_scheme);
    let mut source = InterpretatorFact::new(source_scheme);
    source
        .set("country", InterpretationValue::Chain(Chain::new(vec![token("France", 0, 6, TokenType::Latin)], None)))
        .unwrap();
    target.merge(&source);
    assert!(!target.contains_modified("name"));
    assert_eq!(target.as_json(), Vec::new());
}

fn text_value(text: &str) -> InterpretationValue {
    InterpretationValue::NormalizerResult(NormalizerResult::from_value(FactValue::Str(text.to_string())))
}

#[test]
fn nested_fact_is_written_as_a_block() {
    let name_scheme = fact(
        "Name",
        vec![FactAttributeInput::from("first"), FactAttributeInput::from("last")],
    );
    let person_scheme = fact(
        "Person",
        vec![FactAttributeInput::from("position"), FactAttributeInput::from("name")],
    );

    let mut name = InterpretatorFact::new(name_scheme);
    name.set("first", text_value("иван")).unwrap();
    name.set("last", text_value("ульянов")).unwrap();

    let mut person = InterpretatorFact::new(person_scheme);
    person.set("position", text_value("управляющий директор")).unwrap();
    person
        .set("name", InterpretationValue::FactResult(FactResult::from_runtime_fact(name)))
        .unwrap();

    let record = person.normalized();
    assert_eq!(
        record.to_string(),
        "Person(\n    position='управляющий директор',\n    name=Name(\n        first='иван',\n        last='ульянов'\n    )\n)"
    );
    assert_eq!(record.nested.len(), 1);
    assert_eq!(record.nested[0].0, "name");
    assert_eq!(
        record.get("name"),
        Some(&FactValue::Object(vec![
            ("first".to_string(), FactValue::Str("иван".to_string())),
            ("last".to_string(), FactValue::Str("ульянов".to_string())),
        ]))
    );
}

#[test]
fn record_without_nested_facts_keeps_values_inline() {
    let scheme = fact("F", vec![FactAttributeInput::from("a"), FactAttributeInput::from("b")]);
    let record = FactRecord::new(
        scheme,
        vec![(
            "a".to_string(),
            FactValue::Object(vec![("k".to_string(), FactValue::Str("v".to_string()))]),
        )],
    );
    assert_eq!(record.to_string(), "F(\n    a={k: 'v'},\n    b=None\n)");
}

#[test]
fn merge_reads_source_keys_and_keeps_the_others() {
    let scheme = fact("F", vec![FactAttributeInput::from("a"), FactAttributeInput::from("b")]);
    let mut target = InterpretatorFact::new(scheme.clone());
    target.set("b", text_value("kept")).unwrap();
    let mut source = InterpretatorFact::new(scheme);
    source.set("a", text_value("new")).unwrap();
    target.merge(&source);
    assert!(target.contains_modified("a"));
    assert!(target.contains_modified("b"));
    assert_eq!(
        target.as_json(),
        vec![
            ("a".to_string(), FactValue::Str("new".to_string())),
            ("b".to_string(), FactValue::Str("kept".to_string())),
        ]
    );
}

#[test]
fn sorted_kwargs_report_the_least_unknown_key() {
    let scheme = fact("City", vec![FactAttributeInput::from("name")]);
    let err = scheme
        .try_new_record(vec![
            ("area".to_string(), FactValue::Int(1)),
            ("name".to_string(), FactValue::Str("Moscow".to_string())),
            ("zone".to_string(), FactValue::Int(2)),
        ])
        .unwrap_err();
    assert_eq!(err, FactError::KeyError("area".to_string()));
}

#[test]
fn try_fact_reports_the_first_repeated_name() {
    let err = try_fact(
        "F",
        vec![
            FactAttributeInput::from("a"),
            FactAttributeInput::from("b"),
            FactAttributeInput::from("b"),
            FactAttributeInput::from("a"),
        ],
    )
    .unwrap_err();
    assert_eq!(err, "b");
}

#[test]
fn json_without_raw_follows_the_scheme() {
    let record = FactRecord {
        scheme: renert::internal::FactScheme::new("City"),
        attributes: vec![("x".to_string(), Some(FactValue::Int(1)))],
        raw: None,
        nested: Vec::new(),
    };
    assert_eq!(record.as_json(), vec![]);

    let scheme = fact("City", vec![FactAttributeInput::from("name"), FactAttributeInput::from("rank")]);
    let record = FactRecord {
        scheme,
        attributes: vec![
            ("rank".to_string(), None),
            ("name".to_string(), Some(FactValue::Str("Moscow".to_string()))),
        ],
        raw: None,
        nested: Vec::new(),
    };
    assert_eq!(record.as_json(), vec![("name".to_string(), FactValue::Str("Moscow".to_string()))]);
}
