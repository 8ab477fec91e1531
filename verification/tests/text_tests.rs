use grease::text::{concat3, copy_opt_string, decimal, empty_as_none, owned, str_eq};

#[test]
fn str_eq_compares_characters() {
    assert!(str_eq("rehearsal", "rehearsal"));
    assert!(!str_eq("rehearsal", "Rehearsal"));
    assert!(!str_eq("abc", "abcd"));
    assert!(str_eq("", ""));
}

#[test]
fn decimal_writes_integers() {
    assert_eq!(decimal(0), "0");
    assert_eq!(decimal(42), "42");
    assert_eq!(decimal(-7), "-7");
    assert_eq!(decimal(1_700_000_000_123), "1700000000123");
    assert_eq!(decimal(i64::MIN), "-9223372036854775808");
    assert_eq!(decimal(i64::MAX), "9223372036854775807");
}

#[test]
fn empty_form_fields_are_none() {
    assert_eq!(empty_as_none(Some(String::new())), None);
    assert_eq!(empty_as_none(None), None);
    assert_eq!(empty_as_none(Some("Tenor 1".to_owned())), Some("Tenor 1".to_owned()));
}

#[test]
fn small_string_helpers() {
    assert_eq!(concat3("a", "bc", "d"), "abcd");
    assert_eq!(owned("x"), "x");
    assert_eq!(copy_opt_string(&Some("y".to_owned())), Some("y".to_owned()));
    assert_eq!(copy_opt_string(&None), None);
}
