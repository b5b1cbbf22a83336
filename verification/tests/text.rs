use mqtt_verify::text::dec_string;
use mqtt_verify::text::str_eq;
use mqtt_verify::text::str_starts_with;

#[test]
fn decimal_rendering_is_exact() {
    assert_eq!("0", dec_string(0));
    assert_eq!("7", dec_string(7));
    assert_eq!("10", dec_string(10));
    assert_eq!("12345", dec_string(12345));
    assert_eq!("18446744073709551615", dec_string(u64::MAX));
}

#[test]
fn starts_with_needs_the_whole_prefix() {
    assert!(str_starts_with("foo:...", "foo:"));
    assert!(!str_starts_with("foobar:...", "foo:"));
    assert!(!str_starts_with("fo", "foo:"));
    assert!(str_starts_with("anything", ""));
}

#[test]
fn str_eq_compares_characters() {
    assert!(str_eq("same", "same"));
    assert!(!str_eq("same", "sam"));
    assert!(!str_eq("same", "samx"));
    assert!(str_eq("", ""));
}
