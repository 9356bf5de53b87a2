//! Rendering-independent engine for drawing self-similar curves.
//!
//! The engine translates an abstract symbolic description of a curve into a
//! sequence of pen movements ("turtle graphics") and then hands those
//! movements out in discrete visual steps, so that an animation can advance
//! frame by frame over a double-buffered display.
//!
//! The pieces, leaf first:
//! * [`geometry`] — plain point and vector value types;
//! * [`lindenmayer`] — a grammar rewriting generator for symbol sequences;
//! * [`turtle`] — the turtle action vocabulary, the capability interface a
//!   renderer implements, and a resumable chunked iterator over actions;
//! * [`curves`] — the program registry and a native (grammar-free) curve
//!   generator;
//! * [`rendering`] — the double-buffered frame-advance state machines;
//! * [`chaosgame`] — the double-buffer discipline for stochastic point
//!   plotting.
//!
//! Scalar quantities (distances and angles) are kept generic: the engine
//! never computes with them, it only routes them, so a renderer may
//! instantiate them with whatever numeric type it draws with.

use vstd::prelude::*;

pub mod chaosgame;
pub mod curves;
pub mod geometry;
pub mod lindenmayer;
pub mod rendering;
pub mod turtle;

verus! {

} // verus!
