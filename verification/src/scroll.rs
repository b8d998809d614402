//! The scroll interpreter: turns one scroll-wheel event into a ratio
//! change wrapped in a complete begin/set/end gesture.

use vstd::arithmetic::div_mod::lemma_div_is_ordered;
use vstd::math::abs;
use vstd::prelude::*;

use crate::gesture::{ParamAction, ParamEvent};
use crate::ratio::{clamped, scale_delta, tdiv, INPUT_LIMIT};
use crate::slider::ParamSlider;

verus! {

/// The screen axis a scroll event moved along.
#[derive(Clone, Copy, Debug, PartialEq, Eq, Structural)]
pub enum ScrollAxis {
    Horizontal,
    Vertical,
}

/// The unit the scroll magnitude is reported in.
#[derive(Clone, Copy, Debug, PartialEq, Eq, Structural)]
pub enum ScrollUnit {
    Line,
    Pixel,
}

/// The percent offset one scroll event asks for: a line counts five
/// percent units, a pixel one, and scrolling down (positive `diff`)
/// lowers the value.
pub open spec fn scroll_offset(diff: int, unit: ScrollUnit) -> int {
    match unit {
        ScrollUnit::Line => -5 * diff,
        ScrollUnit::Pixel => -diff,
    }
}

/// The ratio-numerator delta of one scroll event: the offset taken as
/// hundredths of the full span.
pub open spec fn scroll_delta(diff: int, unit: ScrollUnit, span: int) -> int {
    tdiv(scroll_offset(diff, unit) * span, 100)
}

/// The ratio numerator after one scroll event, clamped to the span.
pub open spec fn scrolled_num(s: ParamSlider, diff: int, unit: ScrollUnit) -> int {
    clamped(s.ratio_num + scroll_delta(diff, unit, s.config.span()), 0, s.config.span())
}

/// The slider after one scroll event.
pub open spec fn scroll_result(s: ParamSlider, axis: ScrollAxis, diff: int, unit: ScrollUnit) -> ParamSlider {
    if axis is Horizontal {
        s
    } else {
        ParamSlider { ratio_num: scrolled_num(s, diff, unit) as i64, ..s }
    }
}

/// The gesture events one scroll event queues: nothing for a
/// horizontal scroll, a complete begin/set/end triple otherwise.
pub open spec fn scroll_events(
    s: ParamSlider,
    id: u64,
    axis: ScrollAxis,
    diff: int,
    unit: ScrollUnit,
) -> Seq<ParamEvent> {
    if axis is Horizontal {
        Seq::empty()
    } else {
        seq![
            ParamEvent { id, action: ParamAction::Begin },
            ParamEvent {
                id,
                action: ParamAction::SetValue(scroll_result(s, axis, diff, unit).spec_ratio()),
            },
            ParamEvent { id, action: ParamAction::End },
        ]
    }
}

/// Applies one scroll event to a slider.
///
/// Horizontal scroll is ignored whatever the slider's own orientation.
/// A vertical scroll moves the ratio by the scaled offset, clamped to
/// the range, and queues the atomic `Begin`, `Set`, `End` triple for
/// the gesture protocol — a scroll tick is a complete gesture with no
/// cancellation path.
pub fn update_slider_on_scroll(
    slider: &mut ParamSlider,
    slider_id: u64,
    axis: ScrollAxis,
    diff: i64,
    unit: ScrollUnit,
) -> (events: Vec<ParamEvent>)
    requires
        old(slider).wf(),
        -INPUT_LIMIT <= diff <= INPUT_LIMIT,
    ensures
        final(slider).wf(),
        *final(slider) == scroll_result(*old(slider), axis, diff as int, unit),
        events@ == scroll_events(*old(slider), slider_id, axis, diff as int, unit),
{
    match axis {
        ScrollAxis::Horizontal => {
            let events: Vec<ParamEvent> = Vec::new();
            proof {
                assert(events@ =~= scroll_events(*old(slider), slider_id, axis, diff as int, unit));
            }
            events
        },
        ScrollAxis::Vertical => {
            let span: i64 = slider.config.max - slider.config.min;
            let offset: i64 = match unit {
                ScrollUnit::Line => -5 * diff,
                ScrollUnit::Pixel => -diff,
            };
            proof {
                assert(abs(offset as int) * span <= 10_000_000_000_000_000_000) by (nonlinear_arith)
                    requires
                        abs(offset as int) <= 5_000_000,
                        0 < span <= 2_000_000_000_000,
                ;
                assert(100 * 0x7fff_ffff_ffff_ffff > 10_000_000_000_000_000_000);
            }
            let delta: i64 = scale_delta(offset, span, 100);
            proof {
                lemma_div_is_ordered(
                    abs(offset as int) * span,
                    10_000_000_000_000_000_000,
                    100,
                );
                assert(10_000_000_000_000_000_000int / 100 == 100_000_000_000_000_000int);
            }
            let new_num: i64 = crate::ratio::clamp_add(slider.ratio_num, delta, span);
            slider.ratio_num = new_num;
            let current = slider.ratio();
            let mut events: Vec<ParamEvent> = Vec::new();
            events.push(ParamEvent::begin(slider_id));
            events.push(ParamEvent::set(slider_id, current));
            events.push(ParamEvent::end(slider_id));
            proof {
                assert(events@ =~= scroll_events(*old(slider), slider_id, axis, diff as int, unit));
            }
            events
        },
    }
}

} // verus!
