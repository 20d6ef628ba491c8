//! Validation at the API boundary: out-of-range arguments are rejected
//! without touching the wires.

use led_and_key::driver::ConfigError;
use led_and_key::LedAndKey;

#[test]
fn brightness_out_of_range_is_rejected() {
    let mut d = LedAndKey::new();
    let before = d.wire.trace.len();
    assert_eq!(d.try_set_brightness(8), Err(ConfigError::BrightnessOutOfRange));
    assert_eq!(d.wire.trace.len(), before);
    assert_eq!(d.brightness, 7);
}

#[test]
fn brightness_in_range_is_accepted() {
    let mut d = LedAndKey::new();
    assert_eq!(d.try_set_brightness(5), Ok(()));
    assert_eq!(d.brightness, 5);
}

#[test]
fn segment_position_out_of_range_is_rejected() {
    let mut d = LedAndKey::new();
    let before = d.wire.trace.len();
    assert_eq!(d.try_set_segment_value(8, 0xFF), Err(ConfigError::PositionOutOfRange));
    assert_eq!(d.wire.trace.len(), before);
    assert_eq!(d.try_set_segment_value(7, 0xFF), Ok(()));
}

#[test]
fn led_position_and_state_are_validated() {
    let mut d = LedAndKey::new();
    let before = d.wire.trace.len();
    assert_eq!(d.try_set_led_state(9, 0), Err(ConfigError::PositionOutOfRange));
    assert_eq!(d.try_set_led_state(3, 2), Err(ConfigError::StateOutOfRange));
    assert_eq!(d.wire.trace.len(), before);
    assert_eq!(d.try_set_led_state(3, 1), Ok(()));
}
