//! One slider's frame tick: the fixed, ordered pipeline the scheduler
//! runs every frame.
//!
//! Scroll interpretation runs first, then drag interpretation, then
//! the queued gesture events are processed against the lock, and only
//! then does visual sync read the ratio — so a handle position is
//! never a frame stale, and visual sync sees every mutation of the
//! frame already applied.

use vstd::prelude::*;

use crate::drag::{drag_step, DragState};
use crate::gesture::{lock_run, param_system, relay_of, NIHCurrentParam, ParamEvent, StoreRelay};
use crate::scroll::{scroll_events, scroll_result, update_slider_on_scroll, ScrollAxis, ScrollUnit};
use crate::slider::ParamSlider;
use crate::visual::{
    handle_offset_spec, spec_readout, update_slider_handle, update_slider_readout,
};
use crate::config::ParamSliderAxis;
use crate::{PixelVec, SliderError};

verus! {

/// One scroll event, as the windowing layer reports it.
#[derive(Clone, Copy, Debug, PartialEq, Eq, Structural)]
pub struct ScrollInput {
    pub axis: ScrollAxis,
    pub diff: i64,
    pub unit: ScrollUnit,
}

/// One frame's drag report on the handle.
#[derive(Clone, Copy, Debug, PartialEq, Eq, Structural)]
pub struct DragInput {
    pub state: DragState,
    pub diff: Option<PixelVec>,
}

/// Everything one slider receives in one frame: the sampled inputs
/// and the live geometry the interpreters and visual sync read.
#[derive(Clone, Copy, Debug, PartialEq, Eq, Structural)]
pub struct FrameInput {
    pub scroll: Option<ScrollInput>,
    pub drag: Option<DragInput>,
    pub bar_size: PixelVec,
    pub handle_size: PixelVec,
    pub current_offset: i64,
}

impl FrameInput {
    pub open spec fn bounded(self) -> bool {
        &&& match self.scroll {
            Some(sc) => -crate::ratio::INPUT_LIMIT <= sc.diff <= crate::ratio::INPUT_LIMIT,
            None => true,
        }
        &&& match self.drag {
            Some(dr) => match dr.diff {
                Some(d) => d.bounded(),
                None => true,
            },
            None => true,
        }
        &&& self.bar_size.size_bounded()
        &&& self.handle_size.size_bounded()
    }
}

/// What one frame hands back to the unverified edge: the store
/// relays (or rejections) in order, and the visual writes to perform.
#[derive(Debug)]
pub struct FrameOutput {
    pub relays: Vec<Result<StoreRelay, SliderError>>,
    pub handle_write: Option<i64>,
    pub readout_write: Option<String>,
}

/// The slider after one frame: the scroll interpreter's move, then
/// the drag interpreter's.
pub open spec fn frame_result(s: ParamSlider, id: u64, input: FrameInput) -> ParamSlider {
    let s1 = match input.scroll {
        Some(sc) => scroll_result(s, sc.axis, sc.diff as int, sc.unit),
        None => s,
    };
    match input.drag {
        Some(dr) => drag_step(s1, id, dr.state, dr.diff, input.bar_size, input.handle_size).0,
        None => s1,
    }
}

/// The gesture events one frame queues, in the order the interpreters
/// run.
pub open spec fn frame_events(s: ParamSlider, id: u64, input: FrameInput) -> Seq<ParamEvent> {
    let s1 = match input.scroll {
        Some(sc) => scroll_result(s, sc.axis, sc.diff as int, sc.unit),
        None => s,
    };
    (match input.scroll {
        Some(sc) => scroll_events(s, id, sc.axis, sc.diff as int, sc.unit),
        None => Seq::<ParamEvent>::empty(),
    }) + (match input.drag {
        Some(dr) => drag_step(s1, id, dr.state, dr.diff, input.bar_size, input.handle_size).1,
        None => Seq::<ParamEvent>::empty(),
    })
}

/// The track size visual sync measures for this slider: the bar along
/// the slider's own axis.
pub open spec fn frame_track(s: ParamSlider, input: FrameInput) -> int {
    match s.config.axis {
        ParamSliderAxis::Horizontal => input.bar_size.x as int,
        ParamSliderAxis::Vertical => input.bar_size.y as int,
    }
}

/// The handle size visual sync measures for this slider, along the
/// slider's own axis.
pub open spec fn frame_handle(s: ParamSlider, input: FrameInput) -> int {
    match s.config.axis {
        ParamSliderAxis::Horizontal => input.handle_size.x as int,
        ParamSliderAxis::Vertical => input.handle_size.y as int,
    }
}

/// Runs one slider's whole frame in the fixed order: scroll, drag,
/// gesture processing, handle sync, readout sync.
///
/// Every ratio mutation and every gesture event is fully applied
/// before visual sync reads the ratio.  The relays come back in queue
/// order, each accepted against the lock exactly as `relay_of` says;
/// the handle write is skipped when the offset is already current, and
/// the readout write happens only for a shown readout whose ratio
/// actually changed this frame.
pub fn frame_step(
    slider: &mut ParamSlider,
    slider_id: u64,
    lock: &mut NIHCurrentParam,
    input: FrameInput,
) -> (out: FrameOutput)
    requires
        old(slider).wf(),
        input.bounded(),
    ensures
        final(slider).wf(),
        *final(slider) == frame_result(*old(slider), slider_id, input),
        final(lock).0 == lock_run(old(lock).0, frame_events(*old(slider), slider_id, input)),
        out.relays@.len() == frame_events(*old(slider), slider_id, input).len(),
        forall|i: int|
            0 <= i < out.relays@.len() ==> out.relays@[i] == relay_of(
                lock_run(old(lock).0, frame_events(*old(slider), slider_id, input).take(i)),
                frame_events(*old(slider), slider_id, input)[i],
            ),
        ({
            let s2 = frame_result(*old(slider), slider_id, input);
            let o = handle_offset_spec(
                s2.config.axis,
                s2.spec_ratio(),
                frame_track(s2, input),
                frame_handle(s2, input),
            );
            &&& out.handle_write == (if o == input.current_offset {
                None::<i64>
            } else {
                Some(o as i64)
            })
            &&& match out.readout_write {
                Some(text) => s2.config.show_current && s2.ratio_num != old(slider).ratio_num
                    && text@ == spec_readout(s2.spec_value()),
                None => !(s2.config.show_current && s2.ratio_num != old(slider).ratio_num),
            }
        }),
{
    let ghost s0 = *slider;
    let pre_num: i64 = slider.ratio_num;
    let mut events: Vec<ParamEvent> = Vec::new();
    match input.scroll {
        Some(sc) => {
            let mut ev = update_slider_on_scroll(slider, slider_id, sc.axis, sc.diff, sc.unit);
            events.append(&mut ev);
        },
        None => {},
    }
    match input.drag {
        Some(dr) => {
            let mut ev = crate::drag::update_slider_on_drag(
                slider,
                slider_id,
                dr.state,
                dr.diff,
                input.bar_size,
                input.handle_size,
            );
            events.append(&mut ev);
        },
        None => {},
    }
    proof {
        assert(events@ =~= frame_events(s0, slider_id, input));
    }
    let relays = param_system(lock, &events);
    let handle_write = update_slider_handle(slider, input.bar_size, input.handle_size, input.current_offset);
    let readout_write: Option<String> = if slider.config.show_current && slider.ratio_num != pre_num {
        update_slider_readout(slider)
    } else {
        None
    };
    FrameOutput { relays, handle_write, readout_write }
}

/// The gesture events a whole slider population queues in one frame:
/// each slider's events in slider order, the frame's single queue.
pub open spec fn all_frame_events(
    ss: Seq<ParamSlider>,
    ids: Seq<u64>,
    ins: Seq<FrameInput>,
    n: int,
) -> Seq<ParamEvent>
    decreases n,
{
    if n <= 0 {
        Seq::empty()
    } else {
        all_frame_events(ss, ids, ins, n - 1) + frame_events(ss[n - 1], ids[n - 1], ins[n - 1])
    }
}

/// Runs one frame over the whole slider population, in the
/// scheduler's fixed order: every slider's scroll and drag
/// interpretation first (queueing all gesture events), then the whole
/// queue processed against the one shared lock, and only then the
/// visual sync passes — so no handle or readout is ever a frame
/// stale, and no slider reaches the store except through the lock.
///
/// Returns the store relays (or rejections) for the frame's queue in
/// order, the handle offset to write per slider (none where the
/// offset is already current), and the readout text per slider (none
/// where the readout is hidden or the ratio did not change).
pub fn frame_all(
    sliders: &mut Vec<ParamSlider>,
    ids: &Vec<u64>,
    inputs: &Vec<FrameInput>,
    lock: &mut NIHCurrentParam,
) -> (out: (Vec<Result<StoreRelay, SliderError>>, Vec<Option<i64>>, Vec<Option<String>>))
    requires
        old(sliders)@.len() == ids@.len(),
        old(sliders)@.len() == inputs@.len(),
        forall|i: int| 0 <= i < old(sliders)@.len() ==> #[trigger] old(sliders)@[i].wf(),
        forall|i: int| 0 <= i < inputs@.len() ==> #[trigger] inputs@[i].bounded(),
    ensures
        final(sliders)@.len() == old(sliders)@.len(),
        forall|i: int|
            0 <= i < final(sliders)@.len() ==> #[trigger] final(sliders)@[i] == frame_result(
                old(sliders)@[i],
                ids@[i],
                inputs@[i],
            ) && final(sliders)@[i].wf(),
        final(lock).0 == lock_run(
            old(lock).0,
            all_frame_events(old(sliders)@, ids@, inputs@, old(sliders)@.len() as int),
        ),
        out.0@.len() == all_frame_events(
            old(sliders)@,
            ids@,
            inputs@,
            old(sliders)@.len() as int,
        ).len(),
        forall|k: int|
            0 <= k < out.0@.len() ==> out.0@[k] == relay_of(
                lock_run(
                    old(lock).0,
                    all_frame_events(
                        old(sliders)@,
                        ids@,
                        inputs@,
                        old(sliders)@.len() as int,
                    ).take(k),
                ),
                all_frame_events(old(sliders)@, ids@, inputs@, old(sliders)@.len() as int)[k],
            ),
        out.1@.len() == old(sliders)@.len(),
        forall|i: int|
            0 <= i < out.1@.len() ==> {
                let s2 = frame_result(old(sliders)@[i], ids@[i], inputs@[i]);
                let o = handle_offset_spec(
                    s2.config.axis,
                    s2.spec_ratio(),
                    frame_track(s2, inputs@[i]),
                    frame_handle(s2, inputs@[i]),
                );
                #[trigger] out.1@[i] == (if o == inputs@[i].current_offset {
                    None::<i64>
                } else {
                    Some(o as i64)
                })
            },
        out.2@.len() == old(sliders)@.len(),
        forall|i: int|
            0 <= i < out.2@.len() ==> {
                let s2 = frame_result(old(sliders)@[i], ids@[i], inputs@[i]);
                match #[trigger] out.2@[i] {
                    Some(text) => s2.config.show_current && s2.ratio_num != old(
                        sliders,
                    )@[i].ratio_num && text@ == spec_readout(s2.spec_value()),
                    None => !(s2.config.show_current && s2.ratio_num != old(
                        sliders,
                    )@[i].ratio_num),
                }
            },
{
    let ghost pre = old(sliders)@;
    let n: usize = sliders.len();
    let mut events: Vec<ParamEvent> = Vec::new();
    let mut pre_nums: Vec<i64> = Vec::new();
    let mut i: usize = 0;
    while i < n
        invariant
            n == pre.len(),
            n == ids@.len(),
            n == inputs@.len(),
            0 <= i <= n,
            sliders@.len() == n,
            pre_nums@.len() == i,
            forall|j: int| 0 <= j < n ==> #[trigger] pre[j].wf(),
            forall|j: int| 0 <= j < n ==> #[trigger] inputs@[j].bounded(),
            forall|j: int| i <= j < n ==> #[trigger] sliders@[j] == pre[j],
            forall|j: int|
                0 <= j < i ==> #[trigger] sliders@[j] == frame_result(pre[j], ids@[j], inputs@[j])
                    && sliders@[j].wf(),
            forall|j: int| 0 <= j < i ==> #[trigger] pre_nums@[j] == pre[j].ratio_num,
            events@ == all_frame_events(pre, ids@, inputs@, i as int),
        decreases n - i,
    {
        let ghost events_before = events@;
        proof {
            assert(inputs@[i as int].bounded());
            assert(sliders@[i as int] == pre[i as int]);
        }
        let input: FrameInput = inputs[i];
        let id: u64 = ids[i];
        pre_nums.push(sliders[i].ratio_num);
        match input.scroll {
            Some(sc) => {
                let mut ev = update_slider_on_scroll(&mut sliders[i], id, sc.axis, sc.diff, sc.unit);
                events.append(&mut ev);
            },
            None => {},
        }
        match input.drag {
            Some(dr) => {
                let mut ev = crate::drag::update_slider_on_drag(
                    &mut sliders[i],
                    id,
                    dr.state,
                    dr.diff,
                    input.bar_size,
                    input.handle_size,
                );
                events.append(&mut ev);
            },
            None => {},
        }
        proof {
            assert(events@ =~= events_before + frame_events(pre[i as int], id, input));
            assert(events@ =~= all_frame_events(pre, ids@, inputs@, i + 1));
        }
        i = i + 1;
    }
    let relays = param_system(lock, &events);
    let mut handle_writes: Vec<Option<i64>> = Vec::new();
    let mut readout_writes: Vec<Option<String>> = Vec::new();
    let mut i: usize = 0;
    while i < n
        invariant
            n == pre.len(),
            n == ids@.len(),
            n == inputs@.len(),
            0 <= i <= n,
            sliders@.len() == n,
            pre_nums@.len() == n,
            forall|j: int| 0 <= j < n ==> #[trigger] pre[j].wf(),
            forall|j: int| 0 <= j < n ==> #[trigger] inputs@[j].bounded(),
            forall|j: int|
                0 <= j < n ==> #[trigger] sliders@[j] == frame_result(pre[j], ids@[j], inputs@[j])
                    && sliders@[j].wf(),
            forall|j: int| 0 <= j < n ==> #[trigger] pre_nums@[j] == pre[j].ratio_num,
            handle_writes@.len() == i,
            readout_writes@.len() == i,
            forall|j: int|
                0 <= j < i ==> {
                    let s2 = frame_result(pre[j], ids@[j], inputs@[j]);
                    let o = handle_offset_spec(
                        s2.config.axis,
                        s2.spec_ratio(),
                        frame_track(s2, inputs@[j]),
                        frame_handle(s2, inputs@[j]),
                    );
                    #[trigger] handle_writes@[j] == (if o == inputs@[j].current_offset {
                        None::<i64>
                    } else {
                        Some(o as i64)
                    })
                },
            forall|j: int|
                0 <= j < i ==> {
                    let s2 = frame_result(pre[j], ids@[j], inputs@[j]);
                    match #[trigger] readout_writes@[j] {
                        Some(text) => s2.config.show_current && s2.ratio_num != pre[j].ratio_num
                            && text@ == spec_readout(s2.spec_value()),
                        None => !(s2.config.show_current && s2.ratio_num != pre[j].ratio_num),
                    }
                },
        decreases n - i,
    {
        proof {
            assert(inputs@[i as int].bounded());
            assert(sliders@[i as int] == frame_result(pre[i as int], ids@[i as int], inputs@[i as int]));
        }
        let input: FrameInput = inputs[i];
        let s = &sliders[i];
        let hw = update_slider_handle(s, input.bar_size, input.handle_size, input.current_offset);
        handle_writes.push(hw);
        let rw: Option<String> = if s.config.show_current && s.ratio_num != pre_nums[i] {
            update_slider_readout(s)
        } else {
            None
        };
        readout_writes.push(rw);
        i = i + 1;
    }
    (relays, handle_writes, readout_writes)
}

} // verus!
