//! Display-control opcodes: on/off, brightness, and repetition.

use led_and_key::wire::Event;
use led_and_key::LedAndKey;

/// The single instruction byte emitted over a stretch of trace: the
/// eight levels clocked out between falling and rising clock edges,
/// assembled LSB first. Levels forced outside a clock pulse carry no
/// bit.
fn single_byte_of(events: &[Event]) -> u8 {
    let mut bits: Vec<bool> = Vec::new();
    let mut after_falling_edge = false;
    for e in events {
        match e {
            Event::ClockLow => after_falling_edge = true,
            Event::DataLow => {
                if after_falling_edge {
                    bits.push(false);
                }
            }
            Event::DataHigh => {
                if after_falling_edge {
                    bits.push(true);
                }
            }
            _ => after_falling_edge = false,
        }
    }
    assert_eq!(bits.len(), 8);
    let mut byte: u8 = 0;
    for (i, bit) in bits.iter().enumerate() {
        if *bit {
            byte |= 1 << i;
        }
    }
    byte
}

#[test]
fn display_on_then_brightness_opcodes() {
    for k in 0..8u8 {
        let mut d = LedAndKey::new();
        d.display_on();
        let base = d.wire.trace.len();
        d.set_brightness(k);
        assert_eq!(single_byte_of(&d.wire.trace[base..]), 0x80 | 0x08 | k);
    }
}

#[test]
fn display_off_opcodes() {
    for k in 0..8u8 {
        let mut d = LedAndKey::new();
        d.set_brightness(k);
        let base = d.wire.trace.len();
        d.display_off();
        assert_eq!(single_byte_of(&d.wire.trace[base..]), 0x80 | k);
    }
}

#[test]
fn display_on_emits_default_opcode() {
    let mut d = LedAndKey::new();
    let base = d.wire.trace.len();
    d.display_on();
    assert_eq!(single_byte_of(&d.wire.trace[base..]), 0x8F);
}

#[test]
fn display_off_twice_is_identical_and_keeps_brightness() {
    let mut d = LedAndKey::new();
    d.set_brightness(3);
    let base1 = d.wire.trace.len();
    d.display_off();
    let first: Vec<Event> = d.wire.trace[base1..].to_vec();
    let base2 = d.wire.trace.len();
    d.display_off();
    let second: Vec<Event> = d.wire.trace[base2..].to_vec();
    assert_eq!(first, second);
    assert_eq!(single_byte_of(&second), 0x80 | 3);
    assert_eq!(d.brightness, 3);
    assert!(!d.display);
}

#[test]
fn brightness_zero_opcode() {
    let mut d = LedAndKey::new();
    let base = d.wire.trace.len();
    d.set_brightness(0);
    assert_eq!(single_byte_of(&d.wire.trace[base..]), 0x88);
}
