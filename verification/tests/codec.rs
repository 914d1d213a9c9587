use mercy::errors::MercyError;
use mercy::{base64_decode, base64_encode, base64_round_trip, mercy_decode, mercy_encode, rot13_decode};

#[test]
fn base64_encode_hello() {
    assert_eq!(base64_encode("hello"), "aGVsbG8=".to_string());
}

#[test]
fn base64_decode_hello() {
    assert_eq!(base64_decode("aGVsbG8="), Ok("hello".to_string()));
}

#[test]
fn base64_decode_rejects_bad_input() {
    assert_eq!(base64_decode("!!!not base64!!!"), Err(MercyError::DecodeError));
}

#[test]
fn base64_round_trip_printable_ascii() {
    let inputs = ["", "a", "hello world", "The quick brown fox jumps over the lazy dog! 0123456789"];
    for s in inputs {
        assert_eq!(base64_decode(&base64_encode(s)), Ok(s.to_string()));
        assert_eq!(base64_round_trip(s), s.to_string());
    }
}

#[test]
fn base64_encode_shape() {
    let alphabet_or_pad = |c: char| c.is_ascii_alphanumeric() || c == '+' || c == '/' || c == '=';
    let cases = [("", 0), ("a", 4), ("ab", 4), ("abc", 4), ("abcd", 8)];
    for (input, expected_len) in cases {
        let encoded = base64_encode(input);
        assert_eq!(encoded.len(), expected_len);
        assert!(encoded.chars().all(alphabet_or_pad));
    }
    assert_eq!(base64_encode("a"), "YQ==".to_string());
    assert_eq!(base64_encode("ab"), "YWI=".to_string());
    assert_eq!(base64_encode("abc"), "YWJj".to_string());
}

#[test]
fn rot13_known_value() {
    assert_eq!(rot13_decode("Uryyb, Jbeyq!"), "Hello, World!".to_string());
}

#[test]
fn rot13_involution() {
    let inputs = ["", "abc", "Hello, World!", "NoWhere-to.hide 123", "ZzAaMmNn"];
    for s in inputs {
        assert_eq!(rot13_decode(&rot13_decode(s)), s.to_string());
    }
}

#[test]
fn rot13_passes_non_letters_through() {
    assert_eq!(rot13_decode("123 .,;"), "123 .,;".to_string());
}

#[test]
fn decode_dispatch() {
    assert_eq!(mercy_decode("base64", "aGVsbG8="), Ok("hello".to_string()));
    assert_eq!(mercy_decode("rot13", "uryyb"), Ok("hello".to_string()));
    assert_eq!(mercy_decode("nonsense", "x"), Err(MercyError::UnsupportedOperation));
}

#[test]
fn encode_dispatch() {
    assert_eq!(mercy_encode("base64", "hello"), Ok("aGVsbG8=".to_string()));
    assert_eq!(mercy_encode("rot13", "x"), Err(MercyError::UnsupportedOperation));
}
