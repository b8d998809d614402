//! The whole-population frame: events queued across all sliders in
//! slider order, processed against the one shared lock, then visual
//! sync.

use param_slider::config::{ParamSliderAxis, ParamSliderConfig};
use param_slider::drag::DragState;
use param_slider::frame::{frame_all, DragInput, FrameInput, ScrollInput};
use param_slider::gesture::{NIHCurrentParam, StoreRelay};
use param_slider::ratio::Ratio;
use param_slider::scroll::{ScrollAxis, ScrollUnit};
use param_slider::slider::ParamSlider;
use param_slider::{PixelVec, SliderError};

fn slider(show: bool, ratio_num: i64) -> ParamSlider {
    let mut s = ParamSlider::default();
    s.config =
        ParamSliderConfig::new(None, 0, 100_000, show, ParamSliderAxis::Horizontal);
    s.ratio_num = ratio_num;
    s
}

fn quiet_input() -> FrameInput {
    FrameInput {
        scroll: None,
        drag: None,
        bar_size: PixelVec { x: 200, y: 12 },
        handle_size: PixelVec { x: 20, y: 12 },
        current_offset: 0,
    }
}

#[test]
fn two_scrolls_in_one_frame_serialize() {
    // Both sliders scroll in the same frame.  Each queues a complete
    // begin/set/end triple, in slider order, so all six relays pass.
    let mut sliders = vec![slider(false, 50_000), slider(false, 50_000)];
    let ids = vec![1, 2];
    let scroll = ScrollInput { axis: ScrollAxis::Vertical, diff: 2, unit: ScrollUnit::Line };
    let mut a = quiet_input();
    a.scroll = Some(scroll);
    let inputs = vec![a, a];
    let mut lock = NIHCurrentParam::default();
    let (relays, handles, readouts) = frame_all(&mut sliders, &ids, &inputs, &mut lock);
    assert_eq!(relays.len(), 6);
    let r = Ratio { num: 40_000, span: 100_000 };
    assert_eq!(relays[0], Ok(StoreRelay::BeginEdit(1)));
    assert_eq!(relays[1], Ok(StoreRelay::SetNormalized(1, r)));
    assert_eq!(relays[2], Ok(StoreRelay::EndEdit(1)));
    assert_eq!(relays[3], Ok(StoreRelay::BeginEdit(2)));
    assert_eq!(relays[4], Ok(StoreRelay::SetNormalized(2, r)));
    assert_eq!(relays[5], Ok(StoreRelay::EndEdit(2)));
    assert_eq!(lock.current(), None);
    // Visual sync saw the frame's final ratio: travel 180 at 0.4.
    assert_eq!(handles, vec![Some(72), Some(72)]);
    assert_eq!(readouts, vec![None, None]);
}

#[test]
fn scroll_during_anothers_drag_is_rejected_whole() {
    // Slider 1 starts a drag; slider 2 scrolls in the same frame.
    // Slider 1's Begin takes the lock first, so slider 2's whole
    // triple bounces off it and its ratio change reaches no store.
    let mut sliders = vec![slider(true, 50_000), slider(true, 50_000)];
    let ids = vec![1, 2];
    let mut drag_frame = quiet_input();
    drag_frame.drag = Some(DragInput { state: DragState::DragStart, diff: None });
    drag_frame.current_offset = 90;
    let mut scroll_frame = quiet_input();
    scroll_frame.scroll =
        Some(ScrollInput { axis: ScrollAxis::Vertical, diff: 2, unit: ScrollUnit::Line });
    scroll_frame.current_offset = 90;
    let inputs = vec![drag_frame, scroll_frame];
    let mut lock = NIHCurrentParam::default();
    let (relays, handles, readouts) = frame_all(&mut sliders, &ids, &inputs, &mut lock);
    assert_eq!(relays.len(), 4);
    assert_eq!(relays[0], Ok(StoreRelay::BeginEdit(1)));
    assert_eq!(relays[1], Err(SliderError::ProtocolViolation));
    assert_eq!(relays[2], Err(SliderError::ProtocolViolation));
    assert_eq!(relays[3], Err(SliderError::ProtocolViolation));
    assert_eq!(lock.current(), Some(1));
    // Slider 2's ratio still moved locally and its visuals follow it,
    // even though the store heard nothing this frame.
    assert_eq!(sliders[1].ratio_num, 40_000);
    assert_eq!(handles, vec![None, Some(72)]);
    assert_eq!(readouts[0], None);
    assert_eq!(readouts[1].as_deref(), Some("40.0"));
}
