//! Point and vector value types.
//!
//! Positions live in an abstract coordinate space whose visible area is
//! roughly `[-1, 1] x [-1, 1]`; converting to device coordinates is the
//! renderer's business. The engine itself never combines coordinates
//! arithmetically, so the scalar type is generic: a renderer instantiates it
//! with its own numeric type and owns the point-at-angle-and-distance
//! formula.

use vstd::prelude::*;

verus! {

/// A position in the abstract drawing plane; an immutable value.
#[derive(Clone, Copy, Debug, PartialEq)]
pub struct Point<S> {
    pub x: S,
    pub y: S,
}

/// A displacement given as a direction (in radians) and a magnitude, used by
/// renderers to compute a new `Point` from an old one.
#[derive(Clone, Copy, Debug, PartialEq)]
pub struct Vector<S> {
    pub direction: S,
    pub magnitude: S,
}

} // verus!
