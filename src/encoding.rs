//! Text produced from bytes: the `data:` URI that carries a thumbnail, and
//! the readable form of a tool's diagnostic output.

use vstd::prelude::*;

verus! {

/// The 64 characters of the standard base64 alphabet, in order of value.
pub open spec fn base64_alphabet() -> Seq<char> {
    seq!['A', 'B', 'C', 'D', 'E', 'F', 'G', 'H', 'I', 'J', 'K', 'L', 'M', 'N', 'O', 'P', 'Q', 'R', 'S', 'T', 'U', 'V', 'W', 'X', 'Y', 'Z', 'a', 'b', 'c', 'd', 'e', 'f', 'g', 'h', 'i', 'j', 'k', 'l', 'm', 'n', 'o', 'p', 'q', 'r', 's', 't', 'u', 'v', 'w', 'x', 'y', 'z', '0', '1', '2', '3', '4', '5', '6', '7', '8', '9', '+', '/']
}

/// The base64 character of a six-bit value.
pub open spec fn b64(v: int) -> char {
    base64_alphabet()[v]
}

/// The standard-alphabet, padded base64 encoding of a byte sequence: every
/// three bytes become four characters, six bits each, high bits first; one
/// or two bytes left at the end are padded with `=` to four characters.
pub open spec fn base64_of(data: Seq<u8>) -> Seq<char>
    decreases data.len(),
{
    if data.len() == 0 {
        Seq::empty()
    } else if data.len() == 1 {
        let a = data[0] as int;
        seq![b64(a / 4), b64((a % 4) * 16), '=', '=']
    } else if data.len() == 2 {
        let a = data[0] as int;
        let b = data[1] as int;
        seq![b64(a / 4), b64((a % 4) * 16 + b / 16), b64((b % 16) * 4), '=']
    } else {
        let a = data[0] as int;
        let b = data[1] as int;
        let c = data[2] as int;
        seq![b64(a / 4), b64((a % 4) * 16 + b / 16), b64((b % 16) * 4 + c / 64), b64(c % 64)]
            + base64_of(data.skip(3))
    }
}

/// The text of a byte sequence read as UTF-8, each invalid sequence replaced
/// by U+FFFD.
pub uninterp spec fn lossy_text_of(data: Seq<u8>) -> Seq<char>;

/// Relies on `base64::Engine::encode` with `base64::engine::general_purpose::STANDARD`:
/// the padded standard-alphabet encoding of `data`.
#[verifier::external_body]
fn base64_standard(data: &[u8]) -> (r: String)
    ensures
        r@ == base64_of(data@),
{
    base64::Engine::encode(&base64::engine::general_purpose::STANDARD, data)
}

/// Relies on `String::from_utf8_lossy`: the bytes read as UTF-8 with invalid
/// sequences replaced, which is the plain decoding where the bytes are valid.
#[verifier::external_body]
pub(crate) fn lossy_text(data: &[u8]) -> (r: String)
    ensures
        r@ == lossy_text_of(data@),
        vstd::utf8::valid_utf8(data@) ==> r@ == vstd::utf8::decode_utf8(data@),
{
    String::from_utf8_lossy(data).into_owned()
}

/// The prefix of every thumbnail URI.
pub open spec fn jpeg_uri_prefix() -> Seq<char> {
    "data:image/jpeg;base64,"@
}

/// The `data:` URI that carries JPEG bytes.
pub open spec fn data_uri_of(image: Seq<u8>) -> Seq<char> {
    jpeg_uri_prefix() + base64_of(image)
}

/// Wraps JPEG bytes in a `data:` URI: `data:image/jpeg;base64,` followed by
/// the standard base64 encoding of the bytes.
pub fn data_uri(image: &[u8]) -> (r: String)
    ensures
        r@ == data_uri_of(image@),
{
    let payload = base64_standard(image);
    let uri = String::from_str("data:image/jpeg;base64,");
    uri.concat(payload.as_str())
}

} // verus!
