use renert::interpretation::FactValue;
use renert::parser::fact_extract::set_fact_field;

fn s(v: &str) -> FactValue {
    FactValue::Str(v.to_string())
}

#[test]
fn plain_field_is_inserted_in_name_order_and_replaced() {
    let mut fields: Vec<(String, FactValue)> = Vec::new();
    set_fact_field(&mut fields, "b", s("1"), false);
    set_fact_field(&mut fields, "a", s("2"), false);
    set_fact_field(&mut fields, "b", s("3"), false);
    assert_eq!(fields, vec![("a".to_string(), s("2")), ("b".to_string(), s("3"))]);
}

#[test]
fn repeatable_field_accumulates_a_flat_list() {
    let mut fields: Vec<(String, FactValue)> = Vec::new();
    set_fact_field(&mut fields, "x", s("1"), true);
    set_fact_field(&mut fields, "x", FactValue::List(vec![s("2"), s("3")]), true);
    set_fact_field(&mut fields, "x", s("4"), true);
    assert_eq!(
        fields,
        vec![("x".to_string(), FactValue::List(vec![s("1"), s("2"), s("3"), s("4")]))]
    );
}

#[test]
fn repeatable_field_turns_an_earlier_scalar_into_a_list() {
    let mut fields = vec![("x".to_string(), s("1"))];
    set_fact_field(&mut fields, "x", s("2"), true);
    assert_eq!(fields, vec![("x".to_string(), FactValue::List(vec![s("1"), s("2")]))]);
}
