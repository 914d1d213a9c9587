use mercy::text::u64_to_string;
use mercy::{mercy_source, unknown_msg};

#[test]
fn source_names_the_crate_metadata() {
    let s = mercy_source();
    assert!(s.contains("Version: 1.2.17"));
    assert!(s.contains("Author: "));
}

#[test]
fn unknown_msg_returns_the_message() {
    assert_eq!(unknown_msg("Unable to decode message"), "Unable to decode message".to_string());
}

#[test]
fn decimal_rendering() {
    assert_eq!(u64_to_string(0), "0".to_string());
    assert_eq!(u64_to_string(7), "7".to_string());
    assert_eq!(u64_to_string(12345), "12345".to_string());
    assert_eq!(u64_to_string(u64::MAX), "18446744073709551615".to_string());
}
