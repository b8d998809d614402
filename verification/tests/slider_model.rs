//! The ratio model: interpolation, set_value, construction, elements.

use param_slider::config::{ParamSliderAxis, ParamSliderConfig};
use param_slider::slider::{
    widget_name, ParamKind, ParamSlider, ParamSliderBar, ParamSliderDragHandle, SliderElement,
    PLACEHOLDER_ID,
};
use param_slider::SliderError;

fn slider_over(min: i64, max: i64, ratio_num: i64) -> ParamSlider {
    let mut s = ParamSlider::default();
    s.config = ParamSliderConfig::new(None, min, max, true, ParamSliderAxis::Horizontal);
    s.ratio_num = ratio_num;
    s
}

#[test]
fn value_is_linear_interpolation() {
    // Range 0.0 .. 100.0 (thousandths), ratio 1/4: value 25.0.
    let s = slider_over(0, 100_000, 25_000);
    assert_eq!(s.value(), 25_000);
    let r = s.ratio();
    assert_eq!(r.num, 25_000);
    assert_eq!(r.span, 100_000);
}

#[test]
fn value_exact_at_endpoints() {
    let lo = slider_over(-5_000, 20_000, 0);
    assert_eq!(lo.value(), -5_000);
    let hi = slider_over(-5_000, 20_000, 25_000);
    assert_eq!(hi.value(), 20_000);
}

#[test]
fn set_value_is_left_inverse_of_value() {
    let mut s = slider_over(-10_000, 30_000, 12_345);
    let original = s.value();
    assert!(s.set_value(original).is_ok());
    assert_eq!(s.value(), original);
    assert_eq!(s.ratio_num, 12_345);
}

#[test]
fn set_value_moves_ratio_exactly() {
    let mut s = slider_over(0, 100_000, 0);
    assert!(s.set_value(40_000).is_ok());
    assert_eq!(s.ratio_num, 40_000);
    assert_eq!(s.value(), 40_000);
}

#[test]
fn set_value_out_of_range_is_rejected_no_op() {
    let mut s = slider_over(0, 100_000, 50_000);
    assert_eq!(s.set_value(100_001), Err(SliderError::OutOfRangeValue));
    assert_eq!(s.ratio_num, 50_000);
    assert_eq!(s.set_value(-1), Err(SliderError::OutOfRangeValue));
    assert_eq!(s.ratio_num, 50_000);
    // The endpoints themselves are inside the range.
    assert!(s.set_value(100_000).is_ok());
    assert_eq!(s.value(), 100_000);
}

#[test]
fn construction_rejects_non_float_parameters() {
    let c = ParamSliderConfig::new(None, 0, 1_000, false, ParamSliderAxis::Horizontal);
    let r = ParamSlider::new(c, ParamKind::Int, 0, 1, 2, 3, 4, 5, 6);
    assert_eq!(r.err(), Some(SliderError::UnsupportedParameterKind));
    let c = ParamSliderConfig::new(None, 0, 1_000, false, ParamSliderAxis::Horizontal);
    let r = ParamSlider::new(c, ParamKind::Bool, 0, 1, 2, 3, 4, 5, 6);
    assert_eq!(r.err(), Some(SliderError::UnsupportedParameterKind));
}

#[test]
fn construction_seeds_ratio_from_store_default() {
    let c = ParamSliderConfig::new(
        Some(String::from("Gain")),
        0,
        100_000,
        true,
        ParamSliderAxis::Vertical,
    );
    let s = ParamSlider::new(c, ParamKind::Float, 66_000, 10, 11, 12, 13, 14, 15).unwrap();
    assert_eq!(s.ratio_num, 66_000);
    assert_eq!(s.value(), 66_000);
    assert_eq!(s.base_ratio, None);
    assert_eq!(s.label, 10);
    assert_eq!(s.handle, 13);
}

#[test]
fn element_lookup_is_structural() {
    let c = ParamSliderConfig::new(None, 0, 1_000, false, ParamSliderAxis::Horizontal);
    let s = ParamSlider::new(c, ParamKind::Float, 0, 1, 2, 3, 4, 5, 6).unwrap();
    assert_eq!(s.get(SliderElement::Label), 1);
    assert_eq!(s.get(SliderElement::BarContainer), 2);
    assert_eq!(s.get(SliderElement::Bar), 3);
    assert_eq!(s.get(SliderElement::Handle), 4);
    assert_eq!(s.get(SliderElement::ReadoutContainer), 5);
    assert_eq!(s.get(SliderElement::Readout), 6);
    let all = s.contexts();
    assert_eq!(all.len(), 6);
    assert_eq!(all[0], SliderElement::Label);
    assert_eq!(all[5], SliderElement::Readout);
}

#[test]
fn default_markers_use_placeholder() {
    assert_eq!(ParamSliderDragHandle::default().slider, PLACEHOLDER_ID);
    assert_eq!(ParamSliderBar::default().slider, PLACEHOLDER_ID);
    let s = ParamSlider::default();
    assert_eq!(s.ratio_num, 0);
    assert_eq!(s.handle, PLACEHOLDER_ID);
}

#[test]
fn default_config_is_unit_range() {
    let c = ParamSliderConfig::default();
    assert_eq!(c.min, 0);
    assert_eq!(c.max, 1_000);
    assert!(!c.show_current);
    assert_eq!(c.axis, ParamSliderAxis::Horizontal);
    assert!(c.label.is_none());
}

#[test]
fn widget_name_brackets_the_label() {
    let c = ParamSliderConfig::new(
        Some(String::from("Number 1")),
        0,
        100_000,
        true,
        ParamSliderAxis::Horizontal,
    );
    assert_eq!(widget_name(&c), "Slider [Number 1]");
    let unnamed = ParamSliderConfig::new(None, 0, 1_000, false, ParamSliderAxis::Horizontal);
    assert_eq!(widget_name(&unnamed), "Slider");
    let empty = ParamSliderConfig::new(
        Some(String::new()),
        0,
        1_000,
        false,
        ParamSliderAxis::Horizontal,
    );
    assert_eq!(widget_name(&empty), "Slider");
}
