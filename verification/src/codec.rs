//! Decoding and encoding: base64 (through the `base64` crate) and ROT13
//! (verified in full).

use vstd::prelude::*;
use vstd::string::{StrSliceExecFns, StringExecFns};
use vstd::utf8::{decode_utf8, encode_utf8, encode_utf8_decode_utf8, encode_utf8_valid_utf8, valid_utf8};

use crate::errors::MercyError;
use crate::text::{chars_to_string, str_eq};

verus! {

/// The base64 text (standard alphabet, standard padding) of `bytes`.
pub uninterp spec fn b64_encode_of(bytes: Seq<u8>) -> Seq<char>;

/// The bytes that the base64 text `text` denotes, or `None` when `text` is
/// not well-formed base64.
pub uninterp spec fn b64_decode_of(text: Seq<char>) -> Option<Seq<u8>>;

/// The characters that `String::from_utf8_lossy` yields for `bytes`.
pub uninterp spec fn lossy_decode_of(bytes: Seq<u8>) -> Seq<char>;

#[verifier::external_type_specification]
#[verifier::external_body]
pub struct ExDecodeError(base64::DecodeError);

/// `c` is a character of the standard base64 alphabet: `A`-`Z`, `a`-`z`,
/// `0`-`9`, `+` or `/`.
pub open spec fn is_base64_alphabet_char(c: char) -> bool {
    let v = c as u32;
    (65 <= v && v <= 90) || (97 <= v && v <= 122) || (48 <= v && v <= 57) || c == '+' || c == '/'
}

/// The shape of standard padded base64 text for `n` input bytes: four
/// characters per three bytes, rounded up, every character from the
/// alphabet but for `=` padding in the last two positions.
pub open spec fn base64_shape(n: nat, text: Seq<char>) -> bool {
    &&& text.len() == 4 * ((n + 2) / 3)
    &&& forall|i: int|
        0 <= i < text.len() ==> is_base64_alphabet_char(#[trigger] text[i]) || (text[i] == '='
            && i + 2 >= text.len())
}

/// Relies on `base64::encode`: the standard alphabet with padding, so
/// `base64::decode` restores exactly the bytes that were encoded; the
/// output holds four characters per three input bytes, rounded up, with
/// `=` padding only at the end.
#[verifier::external_body]
fn b64_encode_exec(bytes: &[u8]) -> (r: String)
    ensures
        r@ == b64_encode_of(bytes@),
        b64_decode_of(r@) == Some(bytes@),
        base64_shape(bytes@.len(), r@),
{
    base64::encode(bytes)
}

/// Relies on `base64::decode`: standard alphabet with padding; it fails
/// exactly on input that is not well-formed base64.
#[verifier::external_body]
fn b64_decode_exec(text: &str) -> (r: Result<Vec<u8>, base64::DecodeError>)
    ensures
        (match r {
            Ok(b) => b64_decode_of(text@) == Some(b@),
            Err(_) => b64_decode_of(text@) is None,
        }),
{
    base64::decode(text)
}

/// Relies on `String::from_utf8_lossy`: on valid UTF-8 it returns exactly
/// the decoded characters.
#[verifier::external_body]
fn bytes_to_string_lossy(bytes: &Vec<u8>) -> (r: String)
    ensures
        r@ == lossy_decode_of(bytes@),
        valid_utf8(bytes@) ==> r@ == decode_utf8(bytes@),
{
    String::from_utf8_lossy(bytes).into_owned()
}

/// Base64 encoding of the UTF-8 bytes of a string. Decoding the result
/// restores those bytes.
pub fn base64_encode(plaintext_msg: &str) -> (r: String)
    ensures
        r@ == b64_encode_of(encode_utf8(plaintext_msg@)),
        b64_decode_of(r@) == Some(encode_utf8(plaintext_msg@)),
        base64_shape(encode_utf8(plaintext_msg@).len(), r@),
{
    b64_encode_exec(plaintext_msg.as_bytes())
}

/// What [`base64_decode`] returns for the input `text`.
pub open spec fn base64_decode_post(text: Seq<char>, r: Result<String, MercyError>) -> bool {
    &&& (r is Err <==> b64_decode_of(text) is None)
    &&& (r is Err ==> r == Err::<String, MercyError>(MercyError::DecodeError))
    &&& (b64_decode_of(text) matches Some(b) ==> r matches Ok(s) && s@ == lossy_decode_of(b) && (
    valid_utf8(b) ==> s@ == decode_utf8(b)))
}

/// Base64 decoding; the decoded bytes are read as UTF-8, with invalid
/// sequences replaced, as `String::from_utf8_lossy` does.
pub fn base64_decode(encoded_msg: &str) -> (r: Result<String, MercyError>)
    ensures
        base64_decode_post(encoded_msg@, r),
{
    match b64_decode_exec(encoded_msg) {
        Ok(bytes) => Ok(bytes_to_string_lossy(&bytes)),
        Err(_) => Err(MercyError::DecodeError),
    }
}

/// Round trip: decoding an encoded string restores it, for every string.
/// The `Err` branch is proved unreachable.
pub fn base64_round_trip(s: &str) -> (r: String)
    ensures
        r@ == s@,
{
    let encoded = base64_encode(s);
    let decoded = base64_decode(encoded.as_str());
    proof {
        encode_utf8_valid_utf8(s@);
        encode_utf8_decode_utf8(s@);
    }
    match decoded {
        Ok(t) => t,
        Err(_) => {
            proof {
                assert(false);
            }
            String::new()
        },
    }
}

/// ROT13 of one character: ASCII letters rotate by 13 within their case,
/// everything else passes through unchanged.
pub open spec fn rot13_char(c: char) -> char {
    let v = c as u32;
    if 97 <= v && v <= 122 {
        (((v - 97 + 13) % 26 + 97) as u8) as char
    } else if 65 <= v && v <= 90 {
        (((v - 65 + 13) % 26 + 65) as u8) as char
    } else {
        c
    }
}

/// ROT13 applied to each character.
pub open spec fn rot13_of(s: Seq<char>) -> Seq<char> {
    s.map_values(|c: char| rot13_char(c))
}

/// ROT13 of a string. Total: every string is accepted.
pub fn rot13_decode(encoded_msg: &str) -> (r: String)
    ensures
        r@ == rot13_of(encoded_msg@),
{
    let len = encoded_msg.unicode_len();
    let mut out: Vec<char> = Vec::new();
    let mut i: usize = 0;
    while i < len
        invariant
            i <= len,
            len == encoded_msg@.len(),
            out@ == rot13_of(encoded_msg@.take(i as int)),
        decreases len - i,
    {
        let c = encoded_msg.get_char(i);
        let v = c as u32;
        let rc: char = if 97 <= v && v <= 122 {
            (((v - 97 + 13) % 26 + 97) as u8) as char
        } else if 65 <= v && v <= 90 {
            (((v - 65 + 13) % 26 + 65) as u8) as char
        } else {
            c
        };
        out.push(rc);
        proof {
            assert(rc == rot13_char(encoded_msg@[i as int]));
            assert(out@ =~= rot13_of(encoded_msg@.take(i as int + 1)));
        }
        i += 1;
    }
    proof {
        assert(encoded_msg@.take(len as int) =~= encoded_msg@);
    }
    chars_to_string(&out)
}

proof fn lemma_rot13_char_involution(c: char)
    ensures
        rot13_char(rot13_char(c)) == c,
{
    let v = c as u32;
    if 97 <= v && v <= 122 {
        let w = (v - 97 + 13) % 26 + 97;
        assert(97 <= w && w <= 122);
        assert((rot13_char(c)) as u32 == w);
        assert((w - 97 + 13) % 26 + 97 == v);
    } else if 65 <= v && v <= 90 {
        let w = (v - 65 + 13) % 26 + 65;
        assert(65 <= w && w <= 90);
        assert((rot13_char(c)) as u32 == w);
        assert((w - 65 + 13) % 26 + 65 == v);
    }
}

/// ROT13 is an involution: applying it twice restores every string.
pub proof fn lemma_rot13_involution(s: Seq<char>)
    ensures
        rot13_of(rot13_of(s)) == s,
{
    assert forall|i: int| 0 <= i < s.len() implies rot13_of(rot13_of(s))[i] == s[i] by {
        lemma_rot13_char_involution(s[i]);
    }
    assert(rot13_of(rot13_of(s)) =~= s);
}

/// Decode dispatch: `"base64"` and `"rot13"` are the recognized calls.
pub fn mercy_decode(mercy_call: &str, mercy_string: &str) -> (r: Result<String, MercyError>)
    ensures
        mercy_call@ == "base64"@ ==> base64_decode_post(mercy_string@, r),
        mercy_call@ == "rot13"@ ==> (r matches Ok(s) && s@ == rot13_of(mercy_string@)),
        mercy_call@ != "base64"@ && mercy_call@ != "rot13"@ ==> r == Err::<String, MercyError>(
            MercyError::UnsupportedOperation,
        ),
{
    proof {
        reveal_strlit("base64");
        reveal_strlit("rot13");
        assert("base64"@.len() == 6);
        assert("rot13"@.len() == 5);
        assert("base64"@ != "rot13"@);
    }
    if str_eq(mercy_call, "base64") {
        base64_decode(mercy_string)
    } else if str_eq(mercy_call, "rot13") {
        Ok(rot13_decode(mercy_string))
    } else {
        Err(MercyError::UnsupportedOperation)
    }
}

/// Encode dispatch: `"base64"` is the only recognized call.
pub fn mercy_encode(mercy_call: &str, mercy_string: &str) -> (r: Result<String, MercyError>)
    ensures
        mercy_call@ == "base64"@ ==> (r matches Ok(s) && s@ == b64_encode_of(
            encode_utf8(mercy_string@),
        ) && b64_decode_of(s@) == Some(encode_utf8(mercy_string@)) && base64_shape(
            encode_utf8(mercy_string@).len(),
            s@,
        )),
        mercy_call@ != "base64"@ ==> r == Err::<String, MercyError>(
            MercyError::UnsupportedOperation,
        ),
{
    if str_eq(mercy_call, "base64") {
        Ok(base64_encode(mercy_string))
    } else {
        Err(MercyError::UnsupportedOperation)
    }
}

} // verus!
