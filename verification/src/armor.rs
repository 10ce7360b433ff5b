//! Base64 and UTF-8 conversions that the codec calls but does not implement.
//!
//! Nothing in this file is proved: each function hands its work to code
//! outside the verified library, and its contract is taken on trust.

use base64::engine::general_purpose::STANDARD;
use base64::Engine;
use vstd::prelude::*;
use vstd::utf8::*;

verus! {

/// The error of `String::from_utf8`, which is carried through unread.
#[verifier::external_type_specification]
#[verifier::external_body]
pub struct ExFromUtf8Error(std::string::FromUtf8Error);

/// The standard base64 text, with padding, of a run of bytes.
pub uninterp spec fn base64_text(data: Seq<u8>) -> Seq<char>;

/// The bytes that a base64 text stands for, or `None` where the text is not
/// canonical standard base64 with padding.
pub uninterp spec fn base64_data(text: Seq<char>) -> Option<Seq<u8>>;

/// The characters that standard base64 writes: the alphabet of 64 and the
/// padding sign.
pub open spec fn is_base64_char(c: char) -> bool {
    ||| 'A' <= c <= 'Z'
    ||| 'a' <= c <= 'z'
    ||| '0' <= c <= '9'
    ||| c == '+'
    ||| c == '/'
    ||| c == '='
}

/// `base64::Engine::encode` on the `STANDARD` engine. Trusted: the result is
/// the base64 text of `data`; it is four characters for every three bytes
/// begun, all of them from the base64 alphabet or the padding sign; and the
/// same engine decodes it back to `data`. The engine gives up only where
/// the length of the text does not fit in `usize`, which no slice is long
/// enough for: a slice holds at most `isize::MAX` bytes.
#[verifier::external_body]
pub(crate) fn base64_encode(data: &[u8]) -> (text: String)
    ensures
        text@ == base64_text(data@),
        text@.len() == 4 * ((data@.len() + 2) / 3),
        forall|i: int| 0 <= i < text@.len() ==> is_base64_char(#[trigger] text@[i]),
        base64_data(text@) == Some(data@),
{
    STANDARD.encode(data)
}

/// `base64::Engine::decode` on the `STANDARD` engine, with its error turned
/// into `None`. Trusted: the result is the bytes that `text` stands for, and
/// `None` exactly where it stands for none.
#[verifier::external_body]
pub(crate) fn base64_decode(text: &str) -> (r: Option<Vec<u8>>)
    ensures
        match r {
            Some(data) => base64_data(text@) == Some(data@),
            None => base64_data(text@) is None,
        },
{
    STANDARD.decode(text).ok()
}

/// `String::from_utf8`. Trusted: it succeeds exactly on valid UTF-8, and the
/// string it gives has those bytes as its encoding.
#[verifier::external_body]
pub(crate) fn string_from_utf8(bytes: Vec<u8>) -> (r: Result<String, std::string::FromUtf8Error>)
    ensures
        match r {
            Ok(s) => valid_utf8(bytes@) && encode_utf8(s@) == bytes@,
            Err(_) => !valid_utf8(bytes@),
        },
{
    String::from_utf8(bytes)
}

/// The text that a run of bytes reads as when every malformed UTF-8
/// sequence in it is replaced by U+FFFD.
pub uninterp spec fn utf8_lossy_text(bytes: Seq<u8>) -> Seq<char>;

/// `String::from_utf8_lossy`, made an owned string. Trusted: the result is
/// the lossy reading of `bytes`.
#[verifier::external_body]
pub(crate) fn string_from_utf8_lossy(bytes: &[u8]) -> (s: String)
    ensures
        s@ == utf8_lossy_text(bytes@),
{
    String::from_utf8_lossy(bytes).into_owned()
}

/// The lowercase form of a text, as Unicode defines it.
pub uninterp spec fn lowercase_text(s: Seq<char>) -> Seq<char>;

/// `str::to_lowercase`. Trusted: the result is the lowercase form of `s`.
#[verifier::external_body]
pub(crate) fn to_lowercase(s: &str) -> (lower: String)
    ensures
        lower@ == lowercase_text(s@),
{
    s.to_lowercase()
}

} // verus!
