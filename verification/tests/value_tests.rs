use renert::interpretation::value::OpaqueValue;
use renert::interpretation::FactValue;

#[test]
fn test_str_value() {
    let v = FactValue::Str("тест".into());
    assert!(v.is_str());
    assert!(!v.is_int());
    assert_eq!(v.as_str(), Some("тест"));
}

#[test]
fn test_int_value() {
    let v = FactValue::Int(42);
    assert!(v.is_int());
    assert!(!v.is_str());
    assert_eq!(v.as_int(), Some(42));
}

#[test]
fn test_bool_value() {
    let v = FactValue::Bool(true);
    assert!(v.is_bool());
    assert_eq!(v.as_bool(), Some(true));
}

#[test]
fn test_from_string() {
    let borrowed: FactValue = "hello".into();
    assert_eq!(borrowed, FactValue::Str("hello".into()));

    let owned: FactValue = String::from("world").into();
    assert_eq!(owned, FactValue::Str("world".into()));
}

#[test]
fn test_from_i64() {
    let v: FactValue = 123i64.into();
    assert_eq!(v, FactValue::Int(123));
}

#[test]
fn test_from_i32_and_bool() {
    let i32_value: FactValue = 7i32.into();
    assert_eq!(i32_value, FactValue::Int(7));

    let bool_value: FactValue = false.into();
    assert_eq!(bool_value, FactValue::Bool(false));
}

#[test]
fn test_display() {
    assert_eq!(FactValue::Str("abc".into()).to_string(), "abc");
    assert_eq!(FactValue::Int(42).to_string(), "42");
    assert_eq!(FactValue::Bool(true).to_string(), "true");
}

#[test]
fn test_display_object_and_opaque() {
    let object = FactValue::Object(vec![
        ("name".to_string(), FactValue::Str("Moscow".into())),
        ("rank".to_string(), FactValue::Int(1)),
    ]);
    assert_eq!(object.to_string(), "{name: Moscow, rank: 1}");

    let opaque = FactValue::opaque(10_i64);
    assert_eq!(opaque.to_string(), "<opaque>");
}

#[test]
fn test_type_guards_and_accessors_negative_paths() {
    let int_value = FactValue::Int(1);
    assert!(!int_value.is_str());
    assert!(!int_value.is_bool());
    assert_eq!(int_value.as_str(), None);
    assert_eq!(int_value.as_bool(), None);

    let str_value = FactValue::Str("x".into());
    assert!(!str_value.is_int());
    assert_eq!(str_value.as_int(), None);
}

#[test]
fn test_into_string() {
    let v = FactValue::Str("test".into());
    assert_eq!(v.into_string(), Some("test".into()));

    let v = FactValue::Int(42);
    assert_eq!(v.into_string(), None);
}

#[test]
fn test_push_into_list_scalar_plus_list_flattens() {
    let scalar = FactValue::Str("head".into());
    let list = FactValue::List(vec![
        FactValue::Str("tail1".into()),
        FactValue::Str("tail2".into()),
    ]);

    let result = scalar.push_into_list(list);
    assert_eq!(
        result,
        FactValue::List(vec![
            FactValue::Str("head".into()),
            FactValue::Str("tail1".into()),
            FactValue::Str("tail2".into()),
        ])
    );
}

#[test]
fn test_list_value_creation() {
    let v = FactValue::List(vec![FactValue::Str("a".into()), FactValue::Int(1)]);

    match v {
        FactValue::List(items) => {
            assert_eq!(items.len(), 2);
            assert_eq!(items[0], FactValue::Str("a".into()));
            assert_eq!(items[1], FactValue::Int(1));
        }
        _ => panic!("expected List"),
    }
}

#[test]
fn test_list_display() {
    let v = FactValue::List(vec![
        FactValue::Str("a".into()),
        FactValue::Str("b".into()),
        FactValue::Int(3),
    ]);

    assert_eq!(v.to_string(), "[a, b, 3]");
}

#[test]
fn test_push_into_list_from_scalar() {
    let v1 = FactValue::Str("one".into());
    let v2 = FactValue::Str("two".into());

    let list = v1.push_into_list(v2);

    match list {
        FactValue::List(items) => {
            assert_eq!(items.len(), 2);
            assert_eq!(items[0], FactValue::Str("one".into()));
            assert_eq!(items[1], FactValue::Str("two".into()));
        }
        _ => panic!("expected List"),
    }
}

#[test]
fn test_push_into_list_existing_list() {
    let list = FactValue::List(vec![FactValue::Int(1), FactValue::Int(2)]);

    let result = list.push_into_list(FactValue::Int(3));

    match result {
        FactValue::List(items) => {
            assert_eq!(
                items,
                vec![FactValue::Int(1), FactValue::Int(2), FactValue::Int(3),]
            );
        }
        _ => panic!("expected List"),
    }
}

#[test]
fn test_push_into_list_list_to_list() {
    let list1 = FactValue::List(vec![FactValue::Str("a".into())]);

    let list2 = FactValue::List(vec![FactValue::Str("b".into()), FactValue::Str("c".into())]);

    let result = list1.push_into_list(list2);

    match result {
        FactValue::List(items) => {
            assert_eq!(
                items,
                vec![
                    FactValue::Str("a".into()),
                    FactValue::Str("b".into()),
                    FactValue::Str("c".into()),
                ]
            );
        }
        _ => panic!("expected List"),
    }
}

#[test]
fn test_nested_list_not_created() {
    let list = FactValue::List(vec![FactValue::Int(1)]);
    let result = list.push_into_list(FactValue::List(vec![FactValue::Int(2)]));

    match result {
        FactValue::List(items) => {
            assert_eq!(items.len(), 2);
            assert!(matches!(items[0], FactValue::Int(1)));
            assert!(matches!(items[1], FactValue::Int(2)));
        }
        _ => panic!("expected List"),
    }
}

#[test]
fn push_into_list_is_associative_on_example() {
    let a = FactValue::Int(1);
    let b = FactValue::List(vec![FactValue::Int(2), FactValue::Int(3)]);
    let c = FactValue::Int(4);
    let left = a.clone().push_into_list(b.clone()).push_into_list(c.clone());
    let right = a.push_into_list(b.push_into_list(c));
    assert_eq!(left, right);
}

#[test]
fn display_of_nested_values_and_negative_numbers() {
    let v = FactValue::List(vec![
        FactValue::Int(-5),
        FactValue::Object(vec![("k".to_string(), FactValue::Bool(false))]),
        FactValue::List(Vec::new()),
    ]);
    assert_eq!(v.to_string(), "[-5, {k: false}, []]");
    assert_eq!(FactValue::Int(i64::MIN).to_string(), "-9223372036854775808");
}

#[test]
fn repr_quotes_strings_inside_records() {
    let v = FactValue::List(vec![FactValue::Str("a".into()), FactValue::Int(2)]);
    assert_eq!(v.repr(), "['a', 2]");
    assert_eq!(FactValue::Str("x".into()).repr(), "'x'");
}

#[test]
fn test_opaque_value_downcast_and_debug() {
    let opaque = OpaqueValue::new(42_i64);
    assert_eq!(opaque.downcast_ref::<i64>(), Some(&42));
    assert_eq!(opaque.downcast_ref::<String>(), None);
    assert_eq!(format!("{:?}", opaque), "<opaque>");
}

#[test]
fn test_opaque_value_partial_eq_is_identity_based() {
    let value = OpaqueValue::new(String::from("x"));
    let same = value.clone();
    let other = OpaqueValue::new(String::from("x"));

    assert_eq!(value, same);
    assert_ne!(value, other);
}

#[test]
fn test_fact_value_opaque_helpers() {
    let value = FactValue::opaque(99_i64);
    assert_eq!(value.as_opaque::<i64>(), Some(&99));
    assert_eq!(value.as_opaque::<String>(), None);

    let plain = FactValue::Int(99);
    assert_eq!(plain.as_opaque::<i64>(), None);
}

#[test]
fn opaque_value_inside_a_record_text_is_the_marker() {
    let list = FactValue::List(vec![FactValue::Str("a".into()), FactValue::opaque(1_i64)]);
    assert_eq!(list.repr(), "['a', <opaque>]");
    assert_eq!(list.to_string(), "[a, <opaque>]");
}
