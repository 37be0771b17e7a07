use tuple_space::query_types::QueryTypes;
use tuple_space::types::{Float64, Types};

fn float(value: f64) -> Float64 {
    Float64::from_bits(value.to_bits())
}

#[test]
fn query_types_test_compare() {
    let boolean = Types::Boolean(true);
    let integer = Types::Integer(1);
    let float_value = Types::Float(float(1.0));
    let string = Types::String(String::from("S1"));

    assert_eq!(QueryTypes::Any, boolean);
    assert_eq!(QueryTypes::Any, integer);
    assert_eq!(QueryTypes::Any, float_value);
    assert_eq!(QueryTypes::Any, string);
    assert_eq!(QueryTypes::AnyBoolean, boolean);
    assert_eq!(QueryTypes::AnyInteger, integer);
    assert_eq!(QueryTypes::AnyFloat, float_value);
    assert_eq!(QueryTypes::AnyString, string);

    assert_eq!(QueryTypes::ExactString(String::from("S1")), string);
    assert_eq!(QueryTypes::ExactInteger(1), integer);
    assert_eq!(QueryTypes::ExactFloat(float(1.0)), float_value);
    assert_eq!(QueryTypes::ExactBoolean(true), boolean);
}

#[test]
fn kind_wildcards_reject_other_kinds() {
    assert_ne!(QueryTypes::AnyInteger, Types::Float(float(1.0)));
    assert_ne!(QueryTypes::AnyFloat, Types::Integer(1));
    assert_ne!(QueryTypes::AnyBoolean, Types::String(String::from("true")));
    assert_ne!(QueryTypes::AnyString, Types::Boolean(true));
    assert_ne!(QueryTypes::ExactInteger(1), Types::Integer(2));
    assert_ne!(QueryTypes::ExactString(String::from("a")), Types::String(String::from("b")));
    assert_ne!(QueryTypes::ExactBoolean(false), Types::Boolean(true));
}

#[test]
fn element_agreement_is_symmetric() {
    let elements = vec![
        QueryTypes::Any,
        QueryTypes::AnyBoolean,
        QueryTypes::AnyInteger,
        QueryTypes::AnyFloat,
        QueryTypes::AnyString,
        QueryTypes::ExactBoolean(true),
        QueryTypes::ExactInteger(3),
        QueryTypes::ExactFloat(float(0.5)),
        QueryTypes::ExactString(String::from("x")),
    ];
    for a in &elements {
        assert!(a.agree(a));
        for b in &elements {
            assert_eq!(a.agree(b), b.agree(a));
        }
    }
    assert!(QueryTypes::AnyInteger.agree(&QueryTypes::ExactInteger(3)));
    assert!(!QueryTypes::AnyInteger.agree(&QueryTypes::AnyFloat));
    assert!(!QueryTypes::ExactInteger(3).agree(&QueryTypes::ExactInteger(4)));
}

#[test]
fn concreteness_of_elements() {
    assert!(QueryTypes::ExactInteger(1).is_concrete());
    assert!(QueryTypes::ExactString(String::new()).is_concrete());
    assert!(!QueryTypes::Any.is_concrete());
    assert!(!QueryTypes::AnyFloat.is_concrete());
}
