//! Digests of a string's UTF-8 bytes, rendered as lowercase hexadecimal:
//! SHA-256 through the `sha2` crate, MD5 through the `md5` crate.

use sha2::Digest;
use vstd::prelude::*;

use crate::errors::MercyError;
use crate::text::str_eq;

verus! {

/// The SHA-256 digest of the UTF-8 bytes of `s`, as lowercase hex text.
/// The digest depends on `s` alone, so repeated calls agree.
pub uninterp spec fn sha256_hex_of(s: Seq<char>) -> Seq<char>;

/// The MD5 digest of the UTF-8 bytes of `s`, as lowercase hex text.
/// The digest depends on `s` alone, so repeated calls agree.
pub uninterp spec fn md5_hex_of(s: Seq<char>) -> Seq<char>;

/// `c` is a lowercase hexadecimal digit.
pub open spec fn is_lower_hex_digit(c: char) -> bool {
    let v = c as u32;
    (48 <= v && v <= 57) || (97 <= v && v <= 102)
}

/// Relies on `sha2::Sha256`: a 32-byte digest of the input bytes alone,
/// rendered by its `LowerHex` impl as two lowercase hex digits per byte.
#[verifier::external_body]
fn sha256_hex(s: &str) -> (r: String)
    ensures
        r@ == sha256_hex_of(s@),
        r@.len() == 64,
        forall|i: int| 0 <= i < r@.len() ==> is_lower_hex_digit(#[trigger] r@[i]),
{
    format!("{:x}", sha2::Sha256::digest(s.as_bytes()))
}

/// Relies on `md5::compute`: a 16-byte digest of the input bytes alone,
/// rendered by its `LowerHex` impl as two lowercase hex digits per byte.
#[verifier::external_body]
fn md5_hex(s: &str) -> (r: String)
    ensures
        r@ == md5_hex_of(s@),
        r@.len() == 32,
        forall|i: int| 0 <= i < r@.len() ==> is_lower_hex_digit(#[trigger] r@[i]),
{
    format!("{:x}", md5::compute(s.as_bytes()))
}

/// What [`mercy_hash`] returns for a recognized call: hex text of the fixed
/// width, every character a lowercase hex digit.
pub open spec fn hash_post(digest: Seq<char>, width: int, r: Result<String, MercyError>) -> bool {
    &&& r matches Ok(s)
    &&& (r matches Ok(s) ==> s@ == digest && s@.len() == width && (forall|i: int|
        0 <= i < s@.len() ==> is_lower_hex_digit(#[trigger] s@[i])))
}

/// Hash dispatch: `"sha2_256"` and `"md5"` are the recognized calls.
pub fn mercy_hash(mercy_call: &str, mercy_string: &str) -> (r: Result<String, MercyError>)
    ensures
        mercy_call@ == "sha2_256"@ ==> hash_post(sha256_hex_of(mercy_string@), 64, r),
        mercy_call@ == "md5"@ ==> hash_post(md5_hex_of(mercy_string@), 32, r),
        mercy_call@ != "sha2_256"@ && mercy_call@ != "md5"@ ==> r == Err::<String, MercyError>(
            MercyError::UnsupportedOperation,
        ),
{
    proof {
        reveal_strlit("sha2_256");
        reveal_strlit("md5");
        assert("sha2_256"@.len() == 8);
        assert("md5"@.len() == 3);
        assert("sha2_256"@ != "md5"@);
    }
    if str_eq(mercy_call, "sha2_256") {
        Ok(sha256_hex(mercy_string))
    } else if str_eq(mercy_call, "md5") {
        Ok(md5_hex(mercy_string))
    } else {
        Err(MercyError::UnsupportedOperation)
    }
}

/// The hex digests are deterministic: equal inputs give equal digests.
pub proof fn lemma_hash_deterministic(s1: Seq<char>, s2: Seq<char>)
    requires
        s1 == s2,
    ensures
        sha256_hex_of(s1) == sha256_hex_of(s2),
        md5_hex_of(s1) == md5_hex_of(s2),
{
}

} // verus!
