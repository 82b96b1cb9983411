use midi_controller::slider::SliderValue;
use midi_controller::slider::DEFAULT_SLIDER_VALUE;
use midi_controller::slider::MAX_SLIDER_VALUE;
use midi_controller::slider::MIN_SLIDER_VALUE;

#[test]
fn slider_range_is_zero_to_127() {
    assert_eq!(MIN_SLIDER_VALUE, 0);
    assert_eq!(MAX_SLIDER_VALUE, 127);
    assert_eq!(DEFAULT_SLIDER_VALUE, 64);
}

#[test]
fn default_slider_stands_at_64() {
    assert_eq!(SliderValue::default().get(), 64);
}

#[test]
fn clamped_keeps_values_in_range() {
    for raw in 0..=127u8 {
        assert_eq!(SliderValue::clamped(raw).get(), raw);
    }
}

#[test]
fn clamped_stops_at_the_top() {
    assert_eq!(SliderValue::clamped(128).get(), 127);
    assert_eq!(SliderValue::clamped(200).get(), 127);
    assert_eq!(SliderValue::clamped(255).get(), 127);
}

#[test]
fn clamped_never_leaves_the_range() {
    for raw in 0..=255u8 {
        let value = SliderValue::clamped(raw).get();
        assert!(value <= 127);
    }
}
