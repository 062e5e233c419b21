use kafka_crd::strings::{join_all, str_eq, str_lt, u16_dec};

#[test]
fn decimal_rendering() {
    assert_eq!(u16_dec(0), "0");
    assert_eq!(u16_dec(7), "7");
    assert_eq!(u16_dec(10), "10");
    assert_eq!(u16_dec(909), "909");
    assert_eq!(u16_dec(9093), "9093");
    assert_eq!(u16_dec(65535), "65535");
}

#[test]
fn lexicographic_order() {
    assert!(str_lt("alpha", "beta"));
    assert!(!str_lt("beta", "alpha"));
    assert!(str_lt("", "a"));
    assert!(!str_lt("a", ""));
    assert!(!str_lt("same", "same"));
    assert!(str_lt("abc", "abd"));
    assert!(str_lt("ab", "abc"));
    assert!(!str_lt("abc", "ab"));
    // Order is by code point, so shorter-prefix and case behave as in a
    // byte-wise comparison of the names.
    assert!(str_lt("Broker", "broker"));
}

#[test]
fn string_equality() {
    assert!(str_eq("", ""));
    assert!(str_eq("broker", "broker"));
    assert!(!str_eq("broker", "brokers"));
    assert!(!str_eq("broker", "Broker"));
}

#[test]
fn joining_parts() {
    assert_eq!(join_all(&vec![], " && "), "");
    assert_eq!(join_all(&vec!["one".to_string()], " && "), "one");
    assert_eq!(
        join_all(
            &vec!["one".to_string(), "two".to_string(), "three".to_string()],
            " && "
        ),
        "one && two && three"
    );
}
