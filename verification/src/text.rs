//! Reading text properties back from the native toolkit.
//!
//! A property getter in the toolkit returns either a null pointer (no value
//! set) or a pointer to a NUL-terminated byte buffer.  The unverified glue
//! turns the pointer into `None` or into the raw bytes it points at,
//! terminator included; everything after that — finding the terminator and
//! decoding the bytes as UTF-8, invalid sequences replaced — is decided here.

use vstd::prelude::*;
use crate::cstr::{c_str_bytes, first_nul, has_nul};

verus! {

/// The characters that lossy UTF-8 decoding yields for the given bytes:
/// a function of the bytes alone.
pub uninterp spec fn utf8_lossy_of(bytes: Seq<u8>) -> Seq<char>;

/// Relies on `String::from_utf8_lossy`: the result depends on the bytes
/// alone, invalid sequences becoming the replacement character; no bytes
/// decode to no characters.
#[verifier::external_body]
fn decode_utf8_lossy(bytes: &[u8]) -> (r: String)
    ensures
        r@ == utf8_lossy_of(bytes@),
        bytes@.len() == 0 ==> r@.len() == 0,
{
    String::from_utf8_lossy(bytes).into_owned()
}

/// Interpret what a native text getter handed back: `None` for a null
/// pointer, otherwise the lossy UTF-8 decoding of the bytes before the
/// buffer's first NUL.  A buffer with no terminator is ill-formed and yields
/// `None` as well.
pub fn text_from_c(buf: Option<Vec<u8>>) -> (r: Option<String>)
    ensures
        buf is None ==> r is None,
        buf matches Some(b) ==> {
            &&& r is Some <==> has_nul(b@)
            &&& r matches Some(t) ==> t@ == utf8_lossy_of(b@.take(first_nul(b@)))
        },
{
    match buf {
        None => None,
        Some(b) => match c_str_bytes(b.as_slice()) {
            None => None,
            Some(v) => Some(decode_utf8_lossy(v.as_slice())),
        },
    }
}

} // verus!
