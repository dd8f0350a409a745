//! The image position on a button, as the native toolkit enumerates it.
//!
//! Over the foreign boundary the position travels as a plain integer code:
//! `0` left, `1` right, `2` top, `3` bottom.

use vstd::prelude::*;

verus! {

/// Where a button places its image relative to its label.
#[derive(Clone, Copy, Debug, PartialEq, Eq, Structural)]
pub enum PositionType {
    /// Before the label.
    Left,
    /// After the label.
    Right,
    /// Above the label.
    Top,
    /// Below the label.
    Bottom,
}

/// The integer code under which the native toolkit knows the position.
pub open spec fn spec_position_code(p: PositionType) -> i32 {
    match p {
        PositionType::Left => 0,
        PositionType::Right => 1,
        PositionType::Top => 2,
        PositionType::Bottom => 3,
    }
}

/// The position a native code stands for, or `None` for a code outside the
/// enumeration.
pub open spec fn spec_position_from_code(c: i32) -> Option<PositionType> {
    if c == 0 {
        Some(PositionType::Left)
    } else if c == 1 {
        Some(PositionType::Right)
    } else if c == 2 {
        Some(PositionType::Top)
    } else if c == 3 {
        Some(PositionType::Bottom)
    } else {
        None
    }
}

/// Encode a position for a native call.
pub fn position_to_code(p: PositionType) -> (c: i32)
    ensures
        c == spec_position_code(p),
{
    match p {
        PositionType::Left => 0,
        PositionType::Right => 1,
        PositionType::Top => 2,
        PositionType::Bottom => 3,
    }
}

/// Interpret a code a native call returned.
pub fn position_from_code(c: i32) -> (p: Option<PositionType>)
    ensures
        p == spec_position_from_code(c),
        p is None <==> !(0 <= c <= 3),
{
    if c == 0 {
        Some(PositionType::Left)
    } else if c == 1 {
        Some(PositionType::Right)
    } else if c == 2 {
        Some(PositionType::Top)
    } else if c == 3 {
        Some(PositionType::Bottom)
    } else {
        None
    }
}

/// Encoding a position and reading the code back gives the position again,
/// for every position.
pub proof fn lemma_position_round_trip(p: PositionType)
    ensures
        spec_position_from_code(spec_position_code(p)) == Some(p),
{
}

} // verus!
