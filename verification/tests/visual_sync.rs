//! Visual sync: handle offsets, readout text, and the whole frame
//! pipeline.

use param_slider::config::{ParamSliderAxis, ParamSliderConfig};
use param_slider::drag::DragState;
use param_slider::frame::{frame_step, DragInput, FrameInput, ScrollInput};
use param_slider::gesture::{NIHCurrentParam, StoreRelay};
use param_slider::ratio::Ratio;
use param_slider::scroll::{ScrollAxis, ScrollUnit};
use param_slider::slider::ParamSlider;
use param_slider::visual::{
    handle_offset, readout_text, update_slider_handle, update_slider_readout,
};
use param_slider::PixelVec;

fn slider(axis: ParamSliderAxis, show: bool, min: i64, max: i64, ratio_num: i64) -> ParamSlider {
    let mut s = ParamSlider::default();
    s.config = ParamSliderConfig::new(None, min, max, show, axis);
    s.ratio_num = ratio_num;
    s
}

#[test]
fn handle_offset_round_trips_geometry() {
    // Track 200, handle 20, ratio 0.25: 45 px from the left on a
    // horizontal slider, 135 px from the top on a vertical one.
    let quarter = Ratio { num: 250, span: 1_000 };
    assert_eq!(handle_offset(ParamSliderAxis::Horizontal, quarter, 200, 20), 45);
    assert_eq!(handle_offset(ParamSliderAxis::Vertical, quarter, 200, 20), 135);
}

#[test]
fn handle_offset_at_endpoints() {
    let zero = Ratio { num: 0, span: 1_000 };
    let full = Ratio { num: 1_000, span: 1_000 };
    assert_eq!(handle_offset(ParamSliderAxis::Horizontal, zero, 200, 20), 0);
    assert_eq!(handle_offset(ParamSliderAxis::Horizontal, full, 200, 20), 180);
    assert_eq!(handle_offset(ParamSliderAxis::Vertical, zero, 200, 20), 180);
    assert_eq!(handle_offset(ParamSliderAxis::Vertical, full, 200, 20), 0);
}

#[test]
fn handle_sync_skips_redundant_writes() {
    let s = slider(ParamSliderAxis::Horizontal, false, 0, 1_000, 250);
    let bar = PixelVec { x: 200, y: 10 };
    let handle = PixelVec { x: 20, y: 10 };
    assert_eq!(update_slider_handle(&s, bar, handle, 0), Some(45));
    assert_eq!(update_slider_handle(&s, bar, handle, 45), None);
}

#[test]
fn handle_sync_reads_the_slider_axis() {
    let s = slider(ParamSliderAxis::Vertical, false, 0, 1_000, 250);
    let bar = PixelVec { x: 10, y: 200 };
    let handle = PixelVec { x: 10, y: 20 };
    assert_eq!(update_slider_handle(&s, bar, handle, 0), Some(135));
}

#[test]
fn readout_formats_one_decimal_place() {
    assert_eq!(readout_text(25_000), "25.0");
    assert_eq!(readout_text(40_000), "40.0");
    assert_eq!(readout_text(66_000), "66.0");
    assert_eq!(readout_text(-3_500), "-3.5");
    assert_eq!(readout_text(0), "0.0");
    assert_eq!(readout_text(12_345), "12.3");
    assert_eq!(readout_text(1_000_000), "1000.0");
}

#[test]
fn readout_rounds_half_away_from_zero() {
    assert_eq!(readout_text(150), "0.2");
    assert_eq!(readout_text(-150), "-0.2");
    assert_eq!(readout_text(149), "0.1");
    assert_eq!(readout_text(2_050), "2.1");
}

#[test]
fn readout_never_shows_negative_zero() {
    assert_eq!(readout_text(-40), "0.0");
}

#[test]
fn readout_respects_visibility() {
    let hidden = slider(ParamSliderAxis::Horizontal, false, 0, 100_000, 50_000);
    assert!(update_slider_readout(&hidden).is_none());
    let shown = slider(ParamSliderAxis::Horizontal, true, 0, 100_000, 50_000);
    assert_eq!(update_slider_readout(&shown).as_deref(), Some("50.0"));
}

#[test]
fn frame_runs_scroll_then_sync_in_order() {
    // One frame: a two-line scroll moves ratio 0.5 -> 0.4, the gesture
    // goes through whole, and visual sync sees the new ratio.
    let mut s = slider(ParamSliderAxis::Horizontal, true, 0, 100_000, 50_000);
    let mut lock = NIHCurrentParam::default();
    let input = FrameInput {
        scroll: Some(ScrollInput { axis: ScrollAxis::Vertical, diff: 2, unit: ScrollUnit::Line }),
        drag: None,
        bar_size: PixelVec { x: 200, y: 10 },
        handle_size: PixelVec { x: 20, y: 10 },
        current_offset: 90,
    };
    let out = frame_step(&mut s, 7, &mut lock, input);
    assert_eq!(s.ratio_num, 40_000);
    assert_eq!(out.relays.len(), 3);
    assert_eq!(out.relays[0], Ok(StoreRelay::BeginEdit(7)));
    assert_eq!(
        out.relays[1],
        Ok(StoreRelay::SetNormalized(7, Ratio { num: 40_000, span: 100_000 }))
    );
    assert_eq!(out.relays[2], Ok(StoreRelay::EndEdit(7)));
    assert_eq!(lock.current(), None);
    // Travel 180 at ratio 0.4: 72 px, replacing the stale 90.
    assert_eq!(out.handle_write, Some(72));
    assert_eq!(out.readout_write.as_deref(), Some("40.0"));
}

#[test]
fn frame_with_drag_held_lock_and_quiet_visuals() {
    // A drag frame in the middle of a gesture: the lock stays with the
    // slider, and an up-to-date handle with an unchanged ratio writes
    // nothing.
    let mut s = slider(ParamSliderAxis::Horizontal, true, 0, 100_000, 50_000);
    let mut lock = NIHCurrentParam::default();
    let start = FrameInput {
        scroll: None,
        drag: Some(DragInput { state: DragState::DragStart, diff: None }),
        bar_size: PixelVec { x: 200, y: 10 },
        handle_size: PixelVec { x: 20, y: 10 },
        current_offset: 90,
    };
    let out = frame_step(&mut s, 7, &mut lock, start);
    assert_eq!(out.relays, vec![Ok(StoreRelay::BeginEdit(7))]);
    assert_eq!(lock.current(), Some(7));
    // Ratio unchanged and offset already current: no visual writes.
    assert_eq!(out.handle_write, None);
    assert!(out.readout_write.is_none());
}
