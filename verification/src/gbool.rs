//! Truth values in the native toolkit's convention.
//!
//! The toolkit's `gboolean` is a C `int`: zero is false, anything else is
//! true.  Values produced here are canonical (`0` or `1`); values read back
//! from the toolkit may be any integer and are interpreted as C does.

use vstd::prelude::*;

verus! {

/// The canonical `gboolean` encoding of a Rust `bool`: `1` for true, `0` for
/// false.
pub open spec fn spec_to_gboolean(b: bool) -> i32 {
    if b {
        1
    } else {
        0
    }
}

/// Encode a Rust `bool` as a canonical `gboolean` for a native call.
pub fn to_gboolean(b: bool) -> (g: i32)
    ensures
        g == spec_to_gboolean(b),
{
    if b {
        1
    } else {
        0
    }
}

/// Interpret a `gboolean` returned by a native call: any non-zero integer is
/// true.
pub fn to_bool(g: i32) -> (b: bool)
    ensures
        b <==> g != 0,
{
    g != 0
}

/// Encoding then interpreting a truth value gives it back unchanged, for
/// either value of it.
pub proof fn lemma_gboolean_round_trip(b: bool)
    ensures
        (spec_to_gboolean(b) != 0) == b,
{
}

} // verus!
