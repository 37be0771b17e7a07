use tuple_space::query_types::QueryTypes;
use tuple_space::tuple::Tuple;
use tuple_space::types::Float64;

#[test]
fn test_builder() {
    let tuple = Tuple::builder().integer(5).build();
    assert!(tuple.is_concrete());

    assert_eq!(1, tuple.len());

    let tuple = Tuple::builder()
        .any()
        .any_integer()
        .integer(1)
        .any_float()
        .float(Float64::from_bits(2.0f64.to_bits()))
        .any_boolean()
        .boolean(true)
        .string("String")
        .any_string()
        .build();
    assert_eq!(9, tuple.len());
    assert!(!tuple.is_concrete());
}

#[test]
fn tuple_test_tuple_template() {
    let tuple = Tuple::builder().integer(5).integer(2).build();

    let tuple_template = Tuple::builder().integer(5).any_integer().build();

    assert_eq!(tuple_template, tuple);

    let tuple_template = Tuple::builder().any_integer().any_integer().build();
    assert_eq!(tuple_template, tuple);

    let tuple_template = Tuple::builder().integer(5).any_integer().build();
    assert_eq!(tuple_template, tuple);

    let tuple_template = Tuple::builder().integer(5).any().build();
    assert_eq!(tuple_template, tuple);

    let tuple_template = Tuple::builder().integer(5).build();
    assert_ne!(tuple_template, tuple);

    let tuple_template = Tuple::builder().build();
    assert_ne!(tuple_template, tuple);
}

#[test]
fn empty_tuple() {
    let empty = Tuple::builder().build();
    assert!(empty.is_empty());
    assert_eq!(0, empty.len());
    assert!(empty.is_concrete());
    assert_eq!(empty, Tuple::builder().build());
    assert!(!Tuple::builder().boolean(false).build().is_empty());
}

#[test]
fn position_decides_matching() {
    let tuple = Tuple::builder().integer(1).string("a").build();
    assert_eq!(Tuple::builder().any_integer().any_string().build(), tuple);
    assert_ne!(Tuple::builder().any_string().any_integer().build(), tuple);
    assert_ne!(Tuple::builder().integer(1).string("b").build(), tuple);
}

#[test]
fn elements_and_copies() {
    let tuple = Tuple::builder().integer(7).string("seven").any_float().build();
    assert!(matches!(tuple.get(0), QueryTypes::ExactInteger(7)));
    assert!(matches!(tuple.get(1), QueryTypes::ExactString(s) if s == "seven"));
    assert!(matches!(tuple.get(2), QueryTypes::AnyFloat));
    let copy = tuple.duplicate();
    assert_eq!(copy.len(), 3);
    assert!(matches!(copy.get(1), QueryTypes::ExactString(s) if s == "seven"));
    assert!(tuple.matches(&copy));
}
