//! A verified core for a parameter-driven slider widget.
//!
//! A host application exposes continuous parameters through draggable,
//! scrollable sliders.  This crate holds the logic that must be exact:
//! the normalized ratio model of a slider, the begin/set/end gesture
//! protocol that serializes edits against the host's parameter store,
//! the drag and scroll interpreters that turn pointer input into ratio
//! changes, and the per-frame derivation of handle position and readout
//! text from the ratio.
//!
//! Quantities that the host handles as floating point are carried here
//! as exact integers: parameter values in thousandths of a unit, and a
//! slider's normalized ratio as a numerator over the configured range's
//! span.  The windowing, rendering and entity plumbing around this core
//! is ordinary unverified code that hands in plain values and carries
//! the returned events to the host.

pub mod config;
pub mod drag;
pub mod frame;
pub mod gesture;
pub mod ratio;
pub mod scroll;
pub mod slider;
pub mod visual;

use vstd::prelude::*;

verus! {

/// The failures this core can report.
///
/// Geometry and range guards are handled where they arise; protocol
/// violations are returned to the event-processing caller so malformed
/// input cannot take the host down.
#[derive(Clone, Copy, Debug, PartialEq, Eq, Structural)]
pub enum SliderError {
    /// A `Begin` arrived while a gesture was active, or a `Set`/`End`
    /// arrived without a matching active gesture.
    ProtocolViolation,
    /// `set_value` was asked for a value outside the configured range.
    OutOfRangeValue,
    /// A track left no positive travel for the handle, so a drag step
    /// had nothing to divide by.
    DegenerateGeometry,
    /// A slider was requested over a parameter that is not a
    /// continuous numeric one.
    UnsupportedParameterKind,
}

/// A planar measurement in the unit the windowing layer reports:
/// a pointer delta or an element size, one component per screen axis.
#[derive(Clone, Copy, Debug, PartialEq, Eq, Structural)]
pub struct PixelVec {
    pub x: i64,
    pub y: i64,
}

impl PixelVec {
    /// Small enough for every scaled division in the interpreters.
    pub open spec fn bounded(self) -> bool {
        &&& -crate::ratio::INPUT_LIMIT <= self.x <= crate::ratio::INPUT_LIMIT
        &&& -crate::ratio::INPUT_LIMIT <= self.y <= crate::ratio::INPUT_LIMIT
    }

    /// What a measured element size satisfies: non-negative and small
    /// enough for every scaled division in the interpreters.
    pub open spec fn size_bounded(self) -> bool {
        &&& 0 <= self.x <= crate::ratio::INPUT_LIMIT
        &&& 0 <= self.y <= crate::ratio::INPUT_LIMIT
    }
}

} // verus!
