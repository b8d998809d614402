//! The per-slider state: the current ratio, the configuration, the
//! identities of the visual sub-elements, and the value accessors.

use vstd::prelude::*;
use vstd::string::StringExecFns;

use crate::config::{ParamSliderAxis, ParamSliderConfig};
use crate::ratio::Ratio;
use crate::SliderError;

verus! {

/// The identity a sub-element carries before it is bound to a spawned
/// element.
pub const PLACEHOLDER_ID: u64 = 0xffff_ffff_ffff_ffff;

/// Marks the draggable handle element and names the slider it belongs
/// to.
#[derive(Clone, Copy, Debug, PartialEq, Eq, Structural)]
pub struct ParamSliderDragHandle {
    pub slider: u64,
}

impl Default for ParamSliderDragHandle {
    fn default() -> (r: Self)
        ensures
            r.slider == PLACEHOLDER_ID,
    {
        ParamSliderDragHandle { slider: PLACEHOLDER_ID }
    }
}

/// Marks the bar element and names the slider it belongs to.
#[derive(Clone, Copy, Debug, PartialEq, Eq, Structural)]
pub struct ParamSliderBar {
    pub slider: u64,
}

impl Default for ParamSliderBar {
    fn default() -> (r: Self)
        ensures
            r.slider == PLACEHOLDER_ID,
    {
        ParamSliderBar { slider: PLACEHOLDER_ID }
    }
}

/// The kind of parameter a host handle points at.  Only continuous
/// numeric parameters can sit under a slider.
#[derive(Clone, Copy, Debug, PartialEq, Eq, Structural)]
pub enum ParamKind {
    Float,
    Int,
    Bool,
    Choice,
}

/// The visual sub-elements a slider is built from, addressed by field
/// rather than by a runtime name.
#[derive(Clone, Copy, Debug, PartialEq, Eq, Structural)]
pub enum SliderElement {
    Label,
    BarContainer,
    Bar,
    Handle,
    ReadoutContainer,
    Readout,
}

/// One slider instance.
///
/// `ratio_num` is the numerator of the normalized position over the
/// configured range's span: the slider sits at
/// `ratio_num / config.span()` of the way from `config.min` to
/// `config.max`.  `base_ratio` holds the numerator captured when a
/// drag gesture started, for the cancel path to restore.
#[derive(Clone, Debug)]
pub struct ParamSlider {
    pub ratio_num: i64,
    pub config: ParamSliderConfig,
    pub label: u64,
    pub bar_container: u64,
    pub bar: u64,
    pub handle: u64,
    pub readout_container: u64,
    pub readout: u64,
    pub base_ratio: Option<i64>,
}

impl ParamSlider {
    /// The state invariant: a usable configuration, the ratio inside
    /// `[0, span]`, and any captured base ratio inside the same
    /// interval.
    pub open spec fn wf(&self) -> bool {
        &&& self.config.wf()
        &&& 0 <= self.ratio_num <= self.config.span()
        &&& match self.base_ratio {
            Some(b) => 0 <= b <= self.config.span(),
            None => true,
        }
    }

    /// The normalized position as an exact rational.
    pub open spec fn spec_ratio(&self) -> Ratio {
        Ratio { num: self.ratio_num, span: (self.config.max - self.config.min) as i64 }
    }

    /// The displayed value: the linear interpolation of the range at
    /// the current ratio, exact because the ratio's denominator is the
    /// range's own span.
    pub open spec fn spec_value(&self) -> int {
        self.config.min + self.ratio_num
    }

    /// Builds a slider over a host parameter handle.
    ///
    /// Construction fails fast when the parameter is not a continuous
    /// numeric one; otherwise the ratio is seeded from the store's
    /// reported normalized default, given here as a numerator over the
    /// configuration's span.
    pub fn new(
        config: ParamSliderConfig,
        kind: ParamKind,
        default_num: i64,
        label: u64,
        bar_container: u64,
        bar: u64,
        handle: u64,
        readout_container: u64,
        readout: u64,
    ) -> (r: Result<ParamSlider, SliderError>)
        requires
            config.wf(),
            0 <= default_num <= config.span(),
        ensures
            match r {
                Ok(s) => {
                    &&& kind == ParamKind::Float
                    &&& s.wf()
                    &&& s.ratio_num == default_num
                    &&& s.config == config
                    &&& s.base_ratio is None
                    &&& s.label == label
                    &&& s.bar_container == bar_container
                    &&& s.bar == bar
                    &&& s.handle == handle
                    &&& s.readout_container == readout_container
                    &&& s.readout == readout
                },
                Err(e) => {
                    &&& kind != ParamKind::Float
                    &&& e == SliderError::UnsupportedParameterKind
                },
            },
    {
        match kind {
            ParamKind::Float => Ok(
                ParamSlider {
                    ratio_num: default_num,
                    config,
                    label,
                    bar_container,
                    bar,
                    handle,
                    readout_container,
                    readout,
                    base_ratio: None,
                },
            ),
            _ => Err(SliderError::UnsupportedParameterKind),
        }
    }

    pub fn config(&self) -> (r: &ParamSliderConfig)
        ensures
            *r == self.config,
    {
        &self.config
    }

    /// The normalized position as an exact rational.
    pub fn ratio(&self) -> (r: Ratio)
        requires
            self.wf(),
        ensures
            r == self.spec_ratio(),
            r.wf(),
    {
        Ratio { num: self.ratio_num, span: self.config.max - self.config.min }
    }

    /// The displayed value, in thousandths of a unit:
    /// `min + ratio * (max - min)`, evaluated exactly.
    pub fn value(&self) -> (v: i64)
        requires
            self.wf(),
        ensures
            v == self.spec_value(),
            self.config.min <= v <= self.config.max,
            self.spec_ratio().at_min() ==> v == self.config.min,
            self.spec_ratio().at_max() ==> v == self.config.max,
    {
        self.config.min + self.ratio_num
    }

    /// The slider after `set_value(v)`: moved so that `value()` is
    /// exactly `v` when `v` lies inside the range, unchanged
    /// otherwise.
    pub open spec fn set_value_spec(self, v: int) -> ParamSlider {
        if self.config.min <= v <= self.config.max {
            ParamSlider { ratio_num: (v - self.config.min) as i64, ..self }
        } else {
            self
        }
    }

    /// Moves the slider so it displays `v`, in thousandths of a unit.
    ///
    /// A value outside `[min, max]` is rejected: the state is left
    /// unchanged and the caller receives the diagnostic.
    pub fn set_value(&mut self, v: i64) -> (r: Result<(), SliderError>)
        requires
            old(self).wf(),
        ensures
            final(self).wf(),
            *final(self) == old(self).set_value_spec(v as int),
            match r {
                Ok(()) => {
                    &&& old(self).config.min <= v <= old(self).config.max
                    &&& final(self).spec_value() == v
                },
                Err(e) => {
                    &&& !(old(self).config.min <= v <= old(self).config.max)
                    &&& e == SliderError::OutOfRangeValue
                    &&& *final(self) == *old(self)
                },
            },
    {
        if v > self.config.max || v < self.config.min {
            return Err(SliderError::OutOfRangeValue);
        }
        self.ratio_num = v - self.config.min;
        Ok(())
    }

    /// The identity of one visual sub-element.
    pub fn get(&self, target: SliderElement) -> (r: u64)
        ensures
            r == match target {
                SliderElement::Label => self.label,
                SliderElement::BarContainer => self.bar_container,
                SliderElement::Bar => self.bar,
                SliderElement::Handle => self.handle,
                SliderElement::ReadoutContainer => self.readout_container,
                SliderElement::Readout => self.readout,
            },
    {
        match target {
            SliderElement::Label => self.label,
            SliderElement::BarContainer => self.bar_container,
            SliderElement::Bar => self.bar,
            SliderElement::Handle => self.handle,
            SliderElement::ReadoutContainer => self.readout_container,
            SliderElement::Readout => self.readout,
        }
    }

    /// Every sub-element a slider offers, in presentation order.
    pub fn contexts(&self) -> (r: Vec<SliderElement>)
        ensures
            r@ == seq![
                SliderElement::Label,
                SliderElement::BarContainer,
                SliderElement::Bar,
                SliderElement::Handle,
                SliderElement::ReadoutContainer,
                SliderElement::Readout,
            ],
    {
        let mut v: Vec<SliderElement> = Vec::new();
        v.push(SliderElement::Label);
        v.push(SliderElement::BarContainer);
        v.push(SliderElement::Bar);
        v.push(SliderElement::Handle);
        v.push(SliderElement::ReadoutContainer);
        v.push(SliderElement::Readout);
        proof {
            assert(v@ =~= seq![
                SliderElement::Label,
                SliderElement::BarContainer,
                SliderElement::Bar,
                SliderElement::Handle,
                SliderElement::ReadoutContainer,
                SliderElement::Readout,
            ]);
        }
        v
    }
}

impl Default for ParamSlider {
    /// The slider a freshly constructed widget holds before its
    /// sub-elements are bound: ratio zero over the default unit range.
    fn default() -> (r: Self)
        ensures
            r.wf(),
            r.ratio_num == 0,
            r.config.min == 0,
            r.config.max == 1000,
            r.config.label is None,
            !r.config.show_current,
            r.config.axis == ParamSliderAxis::Horizontal,
            r.base_ratio is None,
            r.label == PLACEHOLDER_ID,
            r.bar_container == PLACEHOLDER_ID,
            r.bar == PLACEHOLDER_ID,
            r.handle == PLACEHOLDER_ID,
            r.readout_container == PLACEHOLDER_ID,
            r.readout == PLACEHOLDER_ID,
    {
        ParamSlider {
            ratio_num: 0,
            config: Default::default(),
            label: PLACEHOLDER_ID,
            bar_container: PLACEHOLDER_ID,
            bar: PLACEHOLDER_ID,
            handle: PLACEHOLDER_ID,
            readout_container: PLACEHOLDER_ID,
            readout: PLACEHOLDER_ID,
            base_ratio: None,
        }
    }
}

/// The display name the constructed widget carries: the label in
/// brackets when one with text is configured, plain otherwise.
pub open spec fn widget_name_spec(c: ParamSliderConfig) -> Seq<char> {
    match c.label {
        Some(l) => if l@.len() > 0 {
            "Slider ["@ + l@ + "]"@
        } else {
            "Slider"@
        },
        None => "Slider"@,
    }
}

/// Builds the display name for a slider widget from its
/// configuration.
pub fn widget_name(c: &ParamSliderConfig) -> (s: String)
    ensures
        s@ == widget_name_spec(*c),
{
    match &c.label {
        Some(l) => {
            if l.as_str().is_empty() {
                String::from_str("Slider")
            } else {
                let mut s = String::from_str("Slider [");
                s.append(l.as_str());
                s.append("]");
                s
            }
        },
        None => String::from_str("Slider"),
    }
}

/// The interpolation law of the ratio model: the displayed value is
/// `min + r * (max - min)` for the ratio `r = num / span`, stated here
/// with denominators cleared, and exact at both endpoints.
pub proof fn lemma_value_is_lerp(s: ParamSlider)
    requires
        s.wf(),
    ensures
        (s.spec_value() - s.config.min) * s.spec_ratio().span == s.spec_ratio().num
            * s.config.span(),
        s.spec_ratio().at_min() ==> s.spec_value() == s.config.min,
        s.spec_ratio().at_max() ==> s.spec_value() == s.config.max,
{
}

/// `set_value` is a left inverse of `value`: writing back the value a
/// slider displays moves nothing, exactly; and a value outside the
/// range leaves the slider untouched.
pub proof fn lemma_set_value_left_inverse(s: ParamSlider, v: int)
    requires
        s.wf(),
    ensures
        s.set_value_spec(s.spec_value()) == s,
        s.set_value_spec(s.spec_value()).spec_value() == s.spec_value(),
        !(s.config.min <= v <= s.config.max) ==> s.set_value_spec(v) == s,
{
    assert(s.set_value_spec(s.spec_value()) == s);
}

} // verus!
