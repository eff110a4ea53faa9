//! Raw image content and its two derived encodings: the base64 form that is
//! put on the wire and the md5 hex digest of the same raw bytes.
//!
//! The base64 encoding (standard alphabet with `=` padding) is small enough
//! to state exactly, so [`base64_encode`] spells it out and the trusted call
//! into the base64 crate is held to it.  The md5 digest is only named:
//! [`md5_hex_of`] stands for whatever 32 lowercase hex digits the digest of
//! the bytes prints as.

use vstd::prelude::*;

verus! {

/// The base64 alphabet of RFC 4648: `A`-`Z`, `a`-`z`, `0`-`9`, `+`, `/`.
pub open spec fn b64_alphabet() -> Seq<char> {
    seq![
        'A', 'B', 'C', 'D', 'E', 'F', 'G', 'H', 'I', 'J', 'K', 'L', 'M', 'N', 'O', 'P', 'Q', 'R',
        'S', 'T', 'U', 'V', 'W', 'X', 'Y', 'Z', 'a', 'b', 'c', 'd', 'e', 'f', 'g', 'h', 'i', 'j',
        'k', 'l', 'm', 'n', 'o', 'p', 'q', 'r', 's', 't', 'u', 'v', 'w', 'x', 'y', 'z', '0', '1',
        '2', '3', '4', '5', '6', '7', '8', '9', '+', '/',
    ]
}

/// The character standing for one 6-bit group.
pub open spec fn b64_char(v: int) -> char {
    b64_alphabet()[v]
}

/// Standard base64 with padding: three bytes become four alphabet characters;
/// a trailing group of one or two bytes is padded with `=` to four.
pub open spec fn base64_encode(bytes: Seq<u8>) -> Seq<char>
    decreases bytes.len(),
{
    if bytes.len() == 0 {
        Seq::empty()
    } else if bytes.len() == 1 {
        let b0 = bytes[0] as int;
        seq![b64_char(b0 / 4), b64_char((b0 % 4) * 16), '=', '=']
    } else if bytes.len() == 2 {
        let b0 = bytes[0] as int;
        let b1 = bytes[1] as int;
        seq![b64_char(b0 / 4), b64_char((b0 % 4) * 16 + b1 / 16), b64_char((b1 % 16) * 4), '=']
    } else {
        let b0 = bytes[0] as int;
        let b1 = bytes[1] as int;
        let b2 = bytes[2] as int;
        seq![
            b64_char(b0 / 4),
            b64_char((b0 % 4) * 16 + b1 / 16),
            b64_char((b1 % 16) * 4 + b2 / 64),
            b64_char(b2 % 64),
        ] + base64_encode(bytes.skip(3))
    }
}

/// The md5 digest of the bytes, written as 32 lowercase hex digits.  The
/// digest is a function of the bytes alone; its value is not stated here.
pub uninterp spec fn md5_hex_of(bytes: Seq<u8>) -> Seq<char>;

/// Relies on the base64 crate's STANDARD engine: RFC 4648 standard alphabet
/// with `=` padding, as [`base64_encode`] states it.
#[verifier::external_body]
fn b64_of_bytes(bytes: &Vec<u8>) -> (r: String)
    ensures
        r@ == base64_encode(bytes@),
{
    base64::Engine::encode(&base64::engine::general_purpose::STANDARD, bytes)
}

/// Relies on md5::compute: a 16-byte digest depending on the input bytes
/// alone, printed with LowerHex as two hex digits per byte.
#[verifier::external_body]
fn md5_hex_of_bytes(bytes: &Vec<u8>) -> (r: String)
    ensures
        r@ == md5_hex_of(bytes@),
        r@.len() == 32,
{
    format!("{:x}", md5::compute(bytes))
}

/// Raw image content, held as the bytes the caller supplied.
pub struct Image {
    content: Vec<u8>,
}

impl View for Image {
    type V = Seq<u8>;

    closed spec fn view(&self) -> Seq<u8> {
        self.content@
    }
}

impl Image {
    /// An image over the given raw bytes.
    pub fn new(data: Vec<u8>) -> (img: Image)
        ensures
            img@ == data@,
    {
        Image { content: data }
    }

    /// The pair that an image message carries: the base64 encoding of the
    /// raw bytes, and the md5 hex digest of the same raw bytes.  Both are
    /// functions of the content alone, so repeated calls agree.
    pub fn encode(&self) -> (r: (String, String))
        ensures
            r.0@ == base64_encode(self@),
            r.1@ == md5_hex_of(self@),
            r.1@.len() == 32,
    {
        (b64_of_bytes(&self.content), md5_hex_of_bytes(&self.content))
    }
}

/// The encodings of an image are referentially transparent: two images with
/// equal bytes yield the same base64 text and the same md5 hex digest.
pub proof fn lemma_image_encoding_deterministic(a: Seq<u8>, b: Seq<u8>)
    requires
        a == b,
    ensures
        base64_encode(a) == base64_encode(b),
        md5_hex_of(a) == md5_hex_of(b),
{
}

/// The base64 form stated above agrees with the common expectation on a
/// concrete input: the bytes of `image` encode to `aW1hZ2U=`.
pub proof fn lemma_base64_concrete_value()
    ensures
        base64_encode(seq![105u8, 109u8, 97u8, 103u8, 101u8]) == "aW1hZ2U="@,
{
    reveal_strlit("aW1hZ2U=");
    reveal_with_fuel(base64_encode, 3);
    let bytes = seq![105u8, 109u8, 97u8, 103u8, 101u8];
    let tail = bytes.skip(3);
    assert(tail =~= seq![103u8, 101u8]);
    assert(base64_encode(tail) =~= seq!['Z', '2', 'U', '=']);
    assert(base64_encode(bytes) =~= "aW1hZ2U="@);
}

} // verus!
