use simpl::value::Value;
use simpl::value::num_text;

#[test]
fn numbers_print_in_decimal() {
    assert_eq!(num_text(0), "0");
    assert_eq!(num_text(7), "7");
    assert_eq!(num_text(12345), "12345");
    assert_eq!(num_text(-5), "-5");
    assert_eq!(num_text(-12345), "-12345");
    assert_eq!(num_text(i64::MAX), "9223372036854775807");
    assert_eq!(num_text(i64::MIN), "-9223372036854775808");
}

#[test]
fn values_print_their_representation() {
    assert_eq!(Value::Nil.to_text(), "nil");
    assert_eq!(Value::Bool(true).to_text(), "true");
    assert_eq!(Value::Bool(false).to_text(), "false");
    assert_eq!(Value::Num(-42).to_text(), "-42");
    assert_eq!(Value::Str("hello".to_string()).to_text(), "hello");
}

#[test]
fn truthiness_and_equality() {
    assert!(!Value::Nil.is_truthy());
    assert!(!Value::Bool(false).is_truthy());
    assert!(Value::Bool(true).is_truthy());
    assert!(Value::Num(0).is_truthy());
    assert!(Value::Str(String::new()).is_truthy());
    assert!(Value::Num(3).equals(&Value::Num(3)));
    assert!(!Value::Num(3).equals(&Value::Num(4)));
    assert!(Value::Str("a".to_string()).equals(&Value::Str("a".to_string())));
    assert!(!Value::Str("a".to_string()).equals(&Value::Num(1)));
    assert!(Value::Nil.equals(&Value::Nil));
    assert!(!Value::Nil.equals(&Value::Bool(false)));
    let v = Value::Str("copy".to_string());
    assert!(v.duplicate().equals(&v));
}
