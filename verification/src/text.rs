use vstd::prelude::*;

verus! {

/// The characters that lossy UTF-8 decoding yields for the given bytes.
pub uninterp spec fn lossy_utf8(b: Seq<u8>) -> Seq<char>;

/// The Unicode lowercase mapping of the given characters.
pub uninterp spec fn lower_of(s: Seq<char>) -> Seq<char>;

/// The UTF-8 encoding of the given characters.
pub uninterp spec fn utf8_of(s: Seq<char>) -> Seq<u8>;

/// Relies on String::from_utf8_lossy: the decoding depends on the bytes
/// alone, replacing invalid sequences with the replacement character.
#[verifier::external_body]
fn from_utf8_lossy(b: &Vec<u8>) -> (s: String)
    ensures
        s@ == lossy_utf8(b@),
{
    String::from_utf8_lossy(b.as_slice()).into_owned()
}

/// Relies on str::to_lowercase: the Unicode lowercase mapping depends on
/// the characters alone.
#[verifier::external_body]
fn to_lowercase(s: &String) -> (r: String)
    ensures
        r@ == lower_of(s@),
{
    s.as_str().to_lowercase()
}

/// Relies on String::into_bytes: the returned bytes are the UTF-8
/// encoding of the characters, which depends on the characters alone.
#[verifier::external_body]
fn into_bytes(s: String) -> (b: Vec<u8>)
    ensures
        b@ == utf8_of(s@),
{
    s.into_bytes()
}

/// The bytes that lowercasing yields for the given bytes: decode
/// lossily, map to Unicode lowercase, re-encode.
pub open spec fn downcase_mapped(b: Seq<u8>) -> Seq<u8> {
    utf8_of(lower_of(lossy_utf8(b)))
}

/// The UTF-8 bytes of the given text.
pub fn text_bytes(s: &str) -> (b: Vec<u8>)
    ensures
        b@ == utf8_of(s@),
{
    into_bytes(s.to_owned())
}

/// Lossily decodes the bytes as text, lowercases the text, and returns
/// the bytes of the result.
pub fn downcase_bytes(b: &Vec<u8>) -> (r: Vec<u8>)
    ensures
        r@ == downcase_mapped(b@),
{
    let s = from_utf8_lossy(b);
    let lowered = to_lowercase(&s);
    into_bytes(lowered)
}

} // verus!
