//! Transport and framing behaviour, observed through the recorded wire
//! trace: bit order, byte framing, register addressing, and the
//! initialization sequence.

use led_and_key::wire::Event;
use led_and_key::LedAndKey;

/// The data-line levels clocked out over a stretch of trace, in order:
/// a driven level counts as a transmitted bit when it sits between the
/// falling and the rising clock edge (the peer latches on the rising
/// edge). A level forced outside a clock pulse, as when the lines are
/// put to rest, carries no bit.
fn data_bits_of(events: &[Event]) -> Vec<bool> {
    let mut bits: Vec<bool> = Vec::new();
    let mut after_falling_edge = false;
    for e in events {
        match e {
            Event::ClockLow => after_falling_edge = true,
            Event::DataLow => {
                if after_falling_edge {
                    bits.push(false);
                }
            }
            Event::DataHigh => {
                if after_falling_edge {
                    bits.push(true);
                }
            }
            _ => after_falling_edge = false,
        }
    }
    bits
}

/// The bytes clocked out over a stretch of trace, each assembled LSB
/// first from eight driven levels.
fn bytes_of(events: &[Event]) -> Vec<u8> {
    let bits = data_bits_of(events);
    assert!(bits.len() % 8 == 0);
    let mut bytes: Vec<u8> = Vec::new();
    for chunk in bits.chunks(8) {
        let mut byte: u8 = 0;
        for (i, bit) in chunk.iter().enumerate() {
            if *bit {
                byte |= 1 << i;
            }
        }
        bytes.push(byte);
    }
    bytes
}

fn strobe_lows(events: &[Event]) -> usize {
    events.iter().filter(|e| **e == Event::StrobeLow).count()
}

fn strobe_highs(events: &[Event]) -> usize {
    events.iter().filter(|e| **e == Event::StrobeHigh).count()
}

#[test]
fn loopback_reproduces_every_byte() {
    let mut d = LedAndKey::new();
    for b in 0..=255u8 {
        let base = d.wire.trace.len();
        d.write_byte(b);
        let emitted = data_bits_of(&d.wire.trace[base..]);
        assert_eq!(emitted.len(), 8);
        for bit in emitted {
            d.wire.feed_input(bit);
        }
        let r = d.read_byte();
        assert_eq!(r, b);
    }
}

#[test]
fn write_byte_emits_lsb_first() {
    let mut d = LedAndKey::new();
    let base = d.wire.trace.len();
    d.write_byte(0xA5);
    let mut expected: Vec<Event> = Vec::new();
    for i in 0..8 {
        expected.push(Event::ClockLow);
        expected.push(if (0xA5u8 >> i) & 1 == 1 {
            Event::DataHigh
        } else {
            Event::DataLow
        });
        expected.push(Event::ClockHigh);
    }
    assert_eq!(&d.wire.trace[base..], &expected[..]);
}

#[test]
fn segment_write_targets_even_register() {
    for p in 0..8u8 {
        let mut d = LedAndKey::new();
        let base = d.wire.trace.len();
        d.set_segment_value(p, 0x5A);
        let tail = &d.wire.trace[base..];
        assert_eq!(bytes_of(tail), vec![0x40, 0xC0 | (2 * p), 0x5A]);
        assert_eq!(strobe_lows(tail), 2);
        assert_eq!(strobe_highs(tail), 2);
        assert_eq!(*tail.last().unwrap(), Event::StrobeHigh);
    }
}

#[test]
fn led_write_targets_odd_register() {
    for p in 0..8u8 {
        for s in 0..2u8 {
            let mut d = LedAndKey::new();
            let base = d.wire.trace.len();
            d.set_led_state(p, s);
            let tail = &d.wire.trace[base..];
            assert_eq!(bytes_of(tail), vec![0x40, 0xC0 | (2 * p + 1), s]);
        }
    }
}

#[test]
fn cleanup_zeroes_all_sixteen_registers_in_one_burst() {
    let mut d = LedAndKey::new();
    let base = d.wire.trace.len();
    d.cleanup();
    let tail = &d.wire.trace[base..];
    let mut expected: Vec<u8> = vec![0x40, 0xC0];
    expected.extend(std::iter::repeat(0u8).take(16));
    assert_eq!(bytes_of(tail), expected);
    // One window for the mode instruction, one window holding the
    // address byte and the whole 16-byte burst.
    assert_eq!(strobe_lows(tail), 2);
    assert_eq!(strobe_highs(tail), 2);
    assert_eq!(*tail.last().unwrap(), Event::StrobeHigh);
}

#[test]
fn construction_emits_defaults_then_clears() {
    let d = LedAndKey::new();
    assert!(d.display);
    assert_eq!(d.brightness, 7);
    assert!(d.wire.strobe_high);
    assert!(d.wire.data_is_output);
    let mut expected: Vec<u8> = vec![0x8F, 0x40, 0xC0];
    expected.extend(std::iter::repeat(0u8).take(16));
    assert_eq!(bytes_of(&d.wire.trace), expected);
}
