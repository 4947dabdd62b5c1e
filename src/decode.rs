//! Lossy decoding of a command's output bytes as text.

use vstd::prelude::*;

verus! {

/// The text that lossy UTF-8 decoding makes of `bytes`: each invalid
/// sequence becomes the replacement character.
pub uninterp spec fn lossy_text(bytes: Seq<u8>) -> Seq<char>;

/// Relies on `String::from_utf8_lossy`, whose result depends on the bytes
/// alone.
#[verifier::external_body]
pub(crate) fn decode_lossy(bytes: &Vec<u8>) -> (r: String)
    ensures
        r@ == lossy_text(bytes@),
{
    String::from_utf8_lossy(bytes.as_slice()).into_owned()
}

} // verus!
