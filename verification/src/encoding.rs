use vstd::prelude::*;
use vstd::utf8::*;

verus! {

/// `base64::DecodeError`: why a text is no base64. Nothing is read from it.
#[verifier::external_type_specification]
#[verifier::external_body]
pub struct ExDecodeError(base64::DecodeError);

/// The standard padded base64 text of `data`, as `base64::encode` produces it.
pub uninterp spec fn base64_text(data: Seq<u8>) -> Seq<char>;

/// The bytes that `base64::decode` reads out of `text`, or `None` where it
/// rejects the text.
pub uninterp spec fn base64_data(text: Seq<char>) -> Option<Seq<u8>>;

/// Whether the base64 text of `len` bytes has a length that fits in `usize`.
pub open spec fn base64_fits(len: nat) -> bool {
    4 * ((len + 2) / 3) <= usize::MAX
}

/// `base64::encode`: the result is the standard base64 text of `data`, and
/// decoding that text gives `data` back. The encoded length must fit in
/// `usize`; the crate panics where it does not.
#[verifier::external_body]
#[allow(deprecated)]
pub(crate) fn base64_encode(data: &[u8]) -> (text: String)
    requires
        base64_fits(data@.len()),
    ensures
        text@ == base64_text(data@),
        base64_data(text@) == Some(data@),
{
    base64::encode(data)
}

/// `base64::decode`: the bytes that the standard alphabet reads out of
/// `text`, or the crate's error where the text is no valid base64.
#[verifier::external_body]
#[allow(deprecated)]
pub(crate) fn base64_decode(text: &str) -> (data: Result<Vec<u8>, base64::DecodeError>)
    ensures
        match data {
            Ok(bytes) => base64_data(text@) == Some(bytes@),
            Err(_) => base64_data(text@) is None,
        },
{
    base64::decode(text)
}

/// `String::from_utf8`: the string that the bytes encode, where they are
/// valid UTF-8, and nothing where they are not.
#[verifier::external_body]
pub(crate) fn string_from_utf8(bytes: Vec<u8>) -> (text: Option<String>)
    ensures
        match text {
            Some(s) => valid_utf8(bytes@) && s@ == decode_utf8(bytes@),
            None => !valid_utf8(bytes@),
        },
{
    String::from_utf8(bytes).ok()
}

/// The text that a file's bytes hold, where they are UTF-8.
pub open spec fn text_of(bytes: Seq<u8>) -> Option<Seq<char>> {
    if valid_utf8(bytes) {
        Some(decode_utf8(bytes))
    } else {
        None
    }
}

/// The text that base64 `text` stands for: its decoded bytes read as UTF-8.
pub open spec fn decoded_text(text: Seq<char>) -> Option<Seq<char>> {
    match base64_data(text) {
        Some(bytes) => text_of(bytes),
        None => None,
    }
}

/// Encodes `data` as base64. Fails only where the encoded length would not
/// fit in `usize`.
pub fn encode(data: &[u8]) -> (text: Option<String>)
    ensures
        match text {
            Some(t) => base64_fits(data@.len()) && t@ == base64_text(data@) && base64_data(t@)
                == Some(data@),
            None => !base64_fits(data@.len()),
        },
{
    let len = data.len();
    let groups = len / 3 + (if len % 3 > 0 { 1usize } else { 0usize });
    if groups > usize::MAX / 4 {
        return None;
    }
    Some(base64_encode(data))
}

/// Encodes the UTF-8 bytes of `text` as base64. What comes out decodes to
/// `text` again.
pub fn encode_text(text: &str) -> (encoded: Option<String>)
    ensures
        match encoded {
            Some(t) => base64_fits(encode_utf8(text@).len()) && t@ == base64_text(
                encode_utf8(text@),
            ) && decoded_text(t@) == Some(text@),
            None => !base64_fits(encode_utf8(text@).len()),
        },
{
    broadcast use encode_utf8_valid_utf8, encode_utf8_decode_utf8;

    encode(text.as_bytes())
}

/// Reads `bytes` as UTF-8 text.
pub fn to_text(bytes: &Vec<u8>) -> (text: Option<String>)
    ensures
        match text {
            Some(s) => text_of(bytes@) == Some(s@),
            None => text_of(bytes@) is None,
        },
{
    string_from_utf8(bytes.clone())
}

/// Decodes base64 `text` and reads the bytes as UTF-8.
pub fn decode_text(text: &str) -> (decoded: Option<String>)
    ensures
        match decoded {
            Some(s) => decoded_text(text@) == Some(s@),
            None => decoded_text(text@) is None,
        },
{
    match base64_decode(text) {
        Ok(bytes) => string_from_utf8(bytes),
        Err(_) => None,
    }
}

} // verus!
