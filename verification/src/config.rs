//! The immutable per-slider configuration: value range, orientation,
//! label and readout visibility.

use vstd::prelude::*;

use crate::ratio::VALUE_LIMIT;

verus! {

/// The direction the handle travels in.
#[derive(Clone, Copy, Debug, PartialEq, Eq, Structural)]
pub enum ParamSliderAxis {
    Horizontal,
    Vertical,
}

impl Default for ParamSliderAxis {
    fn default() -> (r: Self)
        ensures
            r == ParamSliderAxis::Horizontal,
    {
        ParamSliderAxis::Horizontal
    }
}

/// A slider's configuration, fixed after creation.
///
/// `min` and `max` are the displayed range in thousandths of a unit;
/// a ratio of zero maps to `min` and a ratio of one to `max`.
#[derive(Clone, Debug)]
pub struct ParamSliderConfig {
    pub label: Option<String>,
    pub min: i64,
    pub max: i64,
    pub show_current: bool,
    pub axis: ParamSliderAxis,
}

impl ParamSliderConfig {
    /// A usable range: non-degenerate and small enough that every
    /// interpolation below stays well within machine integers.
    pub open spec fn wf(&self) -> bool {
        -VALUE_LIMIT <= self.min < self.max <= VALUE_LIMIT
    }

    /// The width of the range, the denominator of every ratio over
    /// this configuration.
    pub open spec fn span(&self) -> int {
        self.max - self.min
    }

    pub fn new(
        label: Option<String>,
        min: i64,
        max: i64,
        show_current: bool,
        axis: ParamSliderAxis,
    ) -> (r: ParamSliderConfig)
        requires
            -VALUE_LIMIT <= min < max <= VALUE_LIMIT,
        ensures
            r.label == label,
            r.min == min,
            r.max == max,
            r.show_current == show_current,
            r.axis == axis,
            r.wf(),
    {
        ParamSliderConfig { label, min, max, show_current, axis }
    }

    pub fn horizontal(label: Option<String>, min: i64, max: i64, show_current: bool) -> (r:
        ParamSliderConfig)
        requires
            -VALUE_LIMIT <= min < max <= VALUE_LIMIT,
        ensures
            r.label == label,
            r.min == min,
            r.max == max,
            r.show_current == show_current,
            r.axis == ParamSliderAxis::Horizontal,
            r.wf(),
    {
        Self::new(label, min, max, show_current, ParamSliderAxis::Horizontal)
    }

    pub fn vertical(label: Option<String>, min: i64, max: i64, show_current: bool) -> (r:
        ParamSliderConfig)
        requires
            -VALUE_LIMIT <= min < max <= VALUE_LIMIT,
        ensures
            r.label == label,
            r.min == min,
            r.max == max,
            r.show_current == show_current,
            r.axis == ParamSliderAxis::Vertical,
            r.wf(),
    {
        Self::new(label, min, max, show_current, ParamSliderAxis::Vertical)
    }
}

impl Default for ParamSliderConfig {
    /// An unlabeled horizontal slider over the unit range with the
    /// readout hidden.
    fn default() -> (r: Self)
        ensures
            r.label is None,
            r.min == 0,
            r.max == 1000,
            !r.show_current,
            r.axis == ParamSliderAxis::Horizontal,
            r.wf(),
    {
        ParamSliderConfig {
            label: None,
            min: 0,
            max: 1000,
            show_current: false,
            axis: ParamSliderAxis::Horizontal,
        }
    }
}

} // verus!
