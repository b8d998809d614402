//! The drag interpreter: turns per-frame pointer-drag reports on the
//! handle into incremental ratio changes and gesture events.
//!
//! Deltas are incremental rather than absolute so a drag that starts
//! away from the handle's exact pixel position causes no jump: each
//! frame moves the ratio by the fraction of the available travel the
//! pointer covered.

use vstd::arithmetic::div_mod::lemma_div_nonincreasing;
use vstd::math::abs;
use vstd::prelude::*;

use crate::gesture::{ParamAction, ParamEvent};
use crate::config::ParamSliderAxis;
use crate::ratio::{clamped, scale_delta, tdiv, Ratio, INPUT_LIMIT};
use crate::slider::ParamSlider;
use crate::{PixelVec, SliderError};

verus! {

/// The drag phase the windowing layer reports for the handle this
/// frame.
#[derive(Clone, Copy, Debug, PartialEq, Eq, Structural)]
pub enum DragState {
    Inactive,
    MaybeDragged,
    DragStart,
    Dragging,
    DragEnd,
    DragCanceled,
}

/// One frame's geometry and pointer report during a drag, as the
/// lemmas below quantify over it.
#[derive(Clone, Copy, Debug, PartialEq, Eq, Structural)]
pub struct DragFrame {
    pub diff: Option<PixelVec>,
    pub bar: PixelVec,
    pub handle: PixelVec,
}

/// The travel available to the handle: the track's size minus the
/// handle's own, along the slider's axis.
pub open spec fn drag_travel(axis: ParamSliderAxis, bar: PixelVec, handle: PixelVec) -> int {
    match axis {
        ParamSliderAxis::Horizontal => bar.x - handle.x,
        ParamSliderAxis::Vertical => bar.y - handle.y,
    }
}

/// The pointer delta along the slider's axis.  Vertical is inverted:
/// the pointer moving up (negative screen y) raises the value.
pub open spec fn drag_axis_delta(axis: ParamSliderAxis, diff: PixelVec) -> int {
    match axis {
        ParamSliderAxis::Horizontal => diff.x as int,
        ParamSliderAxis::Vertical => -diff.y,
    }
}

/// Whether this frame's report moves the ratio: a delta is present,
/// the travel is positive, and the delta along the axis is not zero.
/// Zero or negative travel is the degenerate-geometry guard: the frame
/// is skipped rather than divided by.
pub open spec fn drag_moved(
    s: ParamSlider,
    diff: Option<PixelVec>,
    bar: PixelVec,
    handle: PixelVec,
) -> bool {
    match diff {
        Some(d) => drag_travel(s.config.axis, bar, handle) > 0 && drag_axis_delta(s.config.axis, d)
            != 0,
        None => false,
    }
}

/// The ratio numerator after this frame's report: moved by the covered
/// fraction of the travel, scaled to the span and clamped to it, or
/// unchanged when the frame is skipped.
pub open spec fn drag_moved_num(
    s: ParamSlider,
    diff: Option<PixelVec>,
    bar: PixelVec,
    handle: PixelVec,
) -> int {
    if drag_moved(s, diff, bar, handle) {
        clamped(
            s.ratio_num + tdiv(
                drag_axis_delta(s.config.axis, diff.unwrap()) * s.config.span(),
                drag_travel(s.config.axis, bar, handle),
            ),
            0,
            s.config.span(),
        )
    } else {
        s.ratio_num as int
    }
}

/// One full drag-interpreter step: the slider afterwards and the
/// gesture events queued, in order.
///
/// `Inactive` and `MaybeDragged` do nothing.  `DragCanceled` has only
/// the restore path: with a captured base ratio it restores it
/// exactly, queues `Set` then `End`, and clears the capture; with no
/// capture there is nothing to cancel and the frame does nothing.
/// Otherwise: `DragStart` captures the base ratio and queues `Begin`;
/// a present delta moves the ratio and queues `Set` unless the frame
/// is skipped; `DragEnd` always queues `End`.
pub open spec fn drag_step(
    s: ParamSlider,
    id: u64,
    state: DragState,
    diff: Option<PixelVec>,
    bar: PixelVec,
    handle: PixelVec,
) -> (ParamSlider, Seq<ParamEvent>) {
    if state is Inactive || state is MaybeDragged {
        (s, Seq::empty())
    } else if state is DragCanceled {
        if s.base_ratio is Some {
            let s2 = ParamSlider { ratio_num: s.base_ratio.unwrap(), base_ratio: None, ..s };
            (
                s2,
                seq![
                    ParamEvent { id, action: ParamAction::SetValue(s2.spec_ratio()) },
                    ParamEvent { id, action: ParamAction::End },
                ],
            )
        } else {
            (s, Seq::empty())
        }
    } else {
        let s1 = if state is DragStart {
            ParamSlider { base_ratio: Some(s.ratio_num), ..s }
        } else {
            s
        };
        let s2 = ParamSlider { ratio_num: drag_moved_num(s1, diff, bar, handle) as i64, ..s1 };
        let evs = (if state is DragStart {
            seq![ParamEvent { id, action: ParamAction::Begin }]
        } else {
            Seq::<ParamEvent>::empty()
        }) + (if drag_moved(s1, diff, bar, handle) {
            seq![ParamEvent { id, action: ParamAction::SetValue(s2.spec_ratio()) }]
        } else {
            Seq::<ParamEvent>::empty()
        }) + (if state is DragEnd {
            seq![ParamEvent { id, action: ParamAction::End }]
        } else {
            Seq::<ParamEvent>::empty()
        });
        (s2, evs)
    }
}

/// The available travel, or the degenerate-geometry diagnostic when
/// the track leaves the handle no room.
pub fn travel(track: i64, handle: i64) -> (r: Result<i64, SliderError>)
    requires
        -INPUT_LIMIT <= track <= INPUT_LIMIT,
        -INPUT_LIMIT <= handle <= INPUT_LIMIT,
    ensures
        match r {
            Ok(t) => t == track - handle && t > 0,
            Err(e) => track - handle <= 0 && e == SliderError::DegenerateGeometry,
        },
{
    let t: i64 = track - handle;
    if t > 0 {
        Ok(t)
    } else {
        Err(SliderError::DegenerateGeometry)
    }
}

/// Applies one frame's drag report to a slider.
///
/// Returns the gesture events to queue, in order.  When the travel is
/// not positive or the delta along the axis is zero, the frame's move
/// is skipped and the ratio is left exactly as it was — never a
/// division by a non-positive span.  A cancel with no captured base
/// ratio has nothing to restore and does nothing.
pub fn update_slider_on_drag(
    slider: &mut ParamSlider,
    slider_id: u64,
    state: DragState,
    diff: Option<PixelVec>,
    bar_size: PixelVec,
    handle_size: PixelVec,
) -> (events: Vec<ParamEvent>)
    requires
        old(slider).wf(),
        match diff {
            Some(d) => d.bounded(),
            None => true,
        },
        bar_size.size_bounded(),
        handle_size.size_bounded(),
    ensures
        final(slider).wf(),
        *final(slider) == drag_step(*old(slider), slider_id, state, diff, bar_size, handle_size).0,
        events@ == drag_step(*old(slider), slider_id, state, diff, bar_size, handle_size).1,
        !(state is DragCanceled && old(slider).base_ratio is Some) && drag_travel(
            old(slider).config.axis,
            bar_size,
            handle_size,
        ) <= 0 ==> final(slider).ratio_num == old(slider).ratio_num,
        state is DragCanceled && old(slider).base_ratio is None ==> *final(slider) == *old(slider)
            && events@ == Seq::<ParamEvent>::empty(),
{
    let ghost s0 = *slider;
    if state == DragState::Inactive || state == DragState::MaybeDragged {
        let events: Vec<ParamEvent> = Vec::new();
        proof {
            assert(events@ =~= drag_step(s0, slider_id, state, diff, bar_size, handle_size).1);
        }
        return events;
    }
    if state == DragState::DragCanceled {
        match slider.base_ratio {
            Some(b) => {
                slider.ratio_num = b;
                slider.base_ratio = None;
                let current: Ratio = slider.ratio();
                let mut events: Vec<ParamEvent> = Vec::new();
                events.push(ParamEvent::set(slider_id, current));
                events.push(ParamEvent::end(slider_id));
                proof {
                    assert(events@ =~= drag_step(
                        s0,
                        slider_id,
                        state,
                        diff,
                        bar_size,
                        handle_size,
                    ).1);
                }
                return events;
            },
            None => {
                let events: Vec<ParamEvent> = Vec::new();
                proof {
                    assert(events@ =~= drag_step(
                        s0,
                        slider_id,
                        state,
                        diff,
                        bar_size,
                        handle_size,
                    ).1);
                }
                return events;
            },
        }
    }
    let mut events: Vec<ParamEvent> = Vec::new();
    if state == DragState::DragStart {
        slider.base_ratio = Some(slider.ratio_num);
        events.push(ParamEvent::begin(slider_id));
    }
    let ghost s1 = *slider;
    match diff {
        Some(d) => {
            let t: i64 = match slider.config.axis {
                ParamSliderAxis::Horizontal => bar_size.x - handle_size.x,
                ParamSliderAxis::Vertical => bar_size.y - handle_size.y,
            };
            let dd: i64 = match slider.config.axis {
                ParamSliderAxis::Horizontal => d.x,
                ParamSliderAxis::Vertical => -d.y,
            };
            if t > 0 && dd != 0 {
                let span: i64 = slider.config.max - slider.config.min;
                proof {
                    assert(abs(dd as int) * span <= 2_000_000_000_000_000_000) by (nonlinear_arith)
                        requires
                            abs(dd as int) <= 1_000_000,
                            0 < span <= 2_000_000_000_000,
                    ;
                    assert(t * 0x7fff_ffff_ffff_ffff >= 1 * 0x7fff_ffff_ffff_ffff) by (nonlinear_arith)
                        requires
                            t >= 1,
                    ;
                }
                let delta: i64 = scale_delta(dd, span, t);
                proof {
                    lemma_div_nonincreasing(abs(dd as int) * span, t as int);
                }
                let new_num: i64 = crate::ratio::clamp_add(slider.ratio_num, delta, span);
                slider.ratio_num = new_num;
                let current: Ratio = slider.ratio();
                events.push(ParamEvent::set(slider_id, current));
            }
        },
        None => {},
    }
    if state == DragState::DragEnd {
        events.push(ParamEvent::end(slider_id));
    }
    proof {
        assert(events@ =~= drag_step(s0, slider_id, state, diff, bar_size, handle_size).1);
    }
    events
}

/// A run of frames all reported as `Dragging`, folded over the
/// interpreter; the events are not collected here.
pub open spec fn drag_run(s: ParamSlider, id: u64, frames: Seq<DragFrame>) -> ParamSlider
    decreases frames.len(),
{
    if frames.len() == 0 {
        s
    } else {
        let prev = drag_run(s, id, frames.drop_last());
        let f = frames.last();
        drag_step(prev, id, DragState::Dragging, f.diff, f.bar, f.handle).0
    }
}

/// A `Dragging` run only moves the ratio: the captured base ratio, the
/// configuration and the element identities all stay put.
pub proof fn lemma_drag_run_keeps_base(s: ParamSlider, id: u64, frames: Seq<DragFrame>)
    ensures
        drag_run(s, id, frames) == (ParamSlider {
            ratio_num: drag_run(s, id, frames).ratio_num,
            ..s
        }),
    decreases frames.len(),
{
    if frames.len() > 0 {
        lemma_drag_run_keeps_base(s, id, frames.drop_last());
    }
}

/// Cancelling restores the exact pre-gesture ratio: after `DragStart`
/// captures the ratio, any sequence of `Dragging` frames followed by
/// `DragCanceled` puts the ratio back to its starting value, clears
/// the capture, and queues exactly `Set` (with the restored ratio)
/// then `End`.
pub proof fn lemma_drag_cancel_restores(
    s0: ParamSlider,
    id: u64,
    start: DragFrame,
    frames: Seq<DragFrame>,
    cancel: DragFrame,
)
    requires
        s0.wf(),
    ensures
        ({
            let s1 = drag_step(s0, id, DragState::DragStart, start.diff, start.bar, start.handle).0;
            let s2 = drag_run(s1, id, frames);
            let out = drag_step(s2, id, DragState::DragCanceled, cancel.diff, cancel.bar, cancel.handle);
            &&& out.0.ratio_num == s0.ratio_num
            &&& out.0.base_ratio is None
            &&& out.1 == seq![
                ParamEvent { id, action: ParamAction::SetValue(out.0.spec_ratio()) },
                ParamEvent { id, action: ParamAction::End },
            ]
            &&& out.0.spec_ratio().num == s0.spec_ratio().num
        }),
{
    let s1 = drag_step(s0, id, DragState::DragStart, start.diff, start.bar, start.handle).0;
    assert(s1.base_ratio == Some(s0.ratio_num));
    let s2 = drag_run(s1, id, frames);
    lemma_drag_run_keeps_base(s1, id, frames);
    assert(s2.base_ratio == Some(s0.ratio_num));
}

} // verus!
