//! Verified marshaling layer for a native GUI toolkit binding.
//!
//! The native toolkit speaks C conventions: truth values are `gboolean`
//! integers, strings are NUL-terminated byte buffers, and enumerations are
//! plain integer codes.  This crate holds the value-level translation between
//! those conventions and safe Rust values, with each translation's behaviour
//! stated and proved.  The foreign calls themselves live outside the library,
//! in unverified glue that hands plain values in and out.

pub mod cstr;
pub mod gbool;
pub mod position;
pub mod relief;
pub mod text;
