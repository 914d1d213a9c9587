use mercy::errors::MercyError;
use mercy::mercy_hash;

#[test]
fn sha256_known_values() {
    assert_eq!(
        mercy_hash("sha2_256", ""),
        Ok("e3b0c44298fc1c149afbf4c8996fb92427ae41e4649b934ca495991b7852b855".to_string())
    );
    assert_eq!(
        mercy_hash("sha2_256", "abc"),
        Ok("ba7816bf8f01cfea414140de5dae2223b00361a396177a9cb410ff61f20015ad".to_string())
    );
}

#[test]
fn md5_known_values() {
    assert_eq!(mercy_hash("md5", ""), Ok("d41d8cd98f00b204e9800998ecf8427e".to_string()));
    assert_eq!(mercy_hash("md5", "abc"), Ok("900150983cd24fb0d6963f7d28e17f72".to_string()));
}

#[test]
fn digests_are_lowercase_hex_of_fixed_width() {
    let sha = mercy_hash("sha2_256", "some input").unwrap();
    assert_eq!(sha.len(), 64);
    assert!(sha.chars().all(|c| c.is_ascii_hexdigit() && !c.is_ascii_uppercase()));
    let md = mercy_hash("md5", "some input").unwrap();
    assert_eq!(md.len(), 32);
    assert!(md.chars().all(|c| c.is_ascii_hexdigit() && !c.is_ascii_uppercase()));
}

#[test]
fn digests_are_deterministic() {
    assert_eq!(mercy_hash("sha2_256", "again"), mercy_hash("sha2_256", "again"));
    assert_eq!(mercy_hash("md5", "again"), mercy_hash("md5", "again"));
}

#[test]
fn hash_dispatch_rejects_unknown_call() {
    assert_eq!(mercy_hash("crc32", "x"), Err(MercyError::UnsupportedOperation));
}
