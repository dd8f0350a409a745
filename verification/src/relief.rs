//! The button relief style, as the native toolkit enumerates it.
//!
//! Over the foreign boundary the style travels as a plain integer code:
//! `0` for the normal relief, `1` for half relief, `2` for no relief.

use vstd::prelude::*;

verus! {

/// A button's border relief style.
#[derive(Clone, Copy, Debug, PartialEq, Eq, Structural)]
pub enum ReliefStyle {
    /// The ordinary raised border.
    Normal,
    /// A border drawn only on prelight.
    Half,
    /// No border at all.
    NoRelief,
}

/// The integer code under which the native toolkit knows the style.
pub open spec fn spec_relief_code(s: ReliefStyle) -> i32 {
    match s {
        ReliefStyle::Normal => 0,
        ReliefStyle::Half => 1,
        ReliefStyle::NoRelief => 2,
    }
}

/// The style a native code stands for, or `None` for a code outside the
/// enumeration.
pub open spec fn spec_relief_from_code(c: i32) -> Option<ReliefStyle> {
    if c == 0 {
        Some(ReliefStyle::Normal)
    } else if c == 1 {
        Some(ReliefStyle::Half)
    } else if c == 2 {
        Some(ReliefStyle::NoRelief)
    } else {
        None
    }
}

/// Encode a style for a native call.
pub fn relief_to_code(s: ReliefStyle) -> (c: i32)
    ensures
        c == spec_relief_code(s),
{
    match s {
        ReliefStyle::Normal => 0,
        ReliefStyle::Half => 1,
        ReliefStyle::NoRelief => 2,
    }
}

/// Interpret a code a native call returned.
pub fn relief_from_code(c: i32) -> (s: Option<ReliefStyle>)
    ensures
        s == spec_relief_from_code(c),
        s is None <==> !(0 <= c <= 2),
{
    if c == 0 {
        Some(ReliefStyle::Normal)
    } else if c == 1 {
        Some(ReliefStyle::Half)
    } else if c == 2 {
        Some(ReliefStyle::NoRelief)
    } else {
        None
    }
}

/// Encoding a style and reading the code back gives the style again, for
/// every style.
pub proof fn lemma_relief_round_trip(s: ReliefStyle)
    ensures
        spec_relief_from_code(spec_relief_code(s)) == Some(s),
{
}

} // verus!
