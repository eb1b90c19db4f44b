//! Wire representations of physical quantities.
//!
//! The protocol carries time in two incompatible encodings — seconds as IEEE-754
//! floating point (32- or 64-bit) and milliseconds as a 16-bit integer — and the
//! decoder must keep them apart.  Floating-point fields are held as their raw
//! little-endian bit patterns, bit-for-bit as they arrived; interpreting them
//! numerically is left to the caller.

use vstd::prelude::*;

verus! {

/// A 32-bit IEEE-754 value, held as its raw bit pattern.
#[derive(Debug, Clone, Copy, PartialEq, Eq, Structural)]
pub struct Float32 {
    pub bits: u32,
}

/// A 64-bit IEEE-754 value, held as its raw bit pattern.
#[derive(Debug, Clone, Copy, PartialEq, Eq, Structural)]
pub struct Float64 {
    pub bits: u64,
}

/// A duration sent as seconds in 32-bit floating point, held as its bit pattern.
#[derive(Debug, Clone, Copy, PartialEq, Eq, Structural)]
pub struct Seconds32 {
    pub bits: u32,
}

/// A duration sent as seconds in 64-bit floating point, held as its bit pattern.
#[derive(Debug, Clone, Copy, PartialEq, Eq, Structural)]
pub struct Seconds64 {
    pub bits: u64,
}

/// A duration sent as whole milliseconds in a 16-bit integer.
#[derive(Debug, Clone, Copy, PartialEq, Eq, Structural)]
pub struct Millis16 {
    pub millis: u16,
}

/// A duration sent as whole seconds in an 8-bit integer.
#[derive(Debug, Clone, Copy, PartialEq, Eq, Structural)]
pub struct Seconds8 {
    pub secs: u8,
}

} // verus!
