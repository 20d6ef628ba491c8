//! Key scanning: the data-read transaction, the 32-bit scan word, and
//! its decoding into eight switch states.

use led_and_key::wire::Event;
use led_and_key::LedAndKey;

/// Enqueue the 32 levels the peripheral would present for `word`.
fn feed_word(d: &mut LedAndKey, word: u32) {
    for j in 0..32 {
        d.wire.feed_input((word >> j) & 1 == 1);
    }
}

#[test]
fn scan_keys_reassembles_the_word() {
    let mut d = LedAndKey::new();
    feed_word(&mut d, 0x00000011);
    assert_eq!(d.scan_keys(), 0x00000011);

    let mut d = LedAndKey::new();
    feed_word(&mut d, 0xDEADBEEF);
    assert_eq!(d.scan_keys(), 0xDEADBEEF);
}

#[test]
fn scan_keys_sends_the_read_instruction() {
    let mut d = LedAndKey::new();
    feed_word(&mut d, 0);
    let base = d.wire.trace.len();
    d.scan_keys();
    let tail = &d.wire.trace[base..];
    assert_eq!(tail[0], Event::StrobeLow);
    // The one byte clocked out in this transaction is 0x42, the
    // data-read instruction; everything after it is sampled, not driven.
    let mut driven: Vec<bool> = Vec::new();
    for e in tail {
        match e {
            Event::DataLow => driven.push(false),
            Event::DataHigh => driven.push(true),
            _ => {}
        }
    }
    assert_eq!(driven.len(), 8);
    let mut byte: u8 = 0;
    for (i, bit) in driven.iter().enumerate() {
        if *bit {
            byte |= 1 << i;
        }
    }
    assert_eq!(byte, 0x40 | 0x02);
    assert_eq!(*tail.last().unwrap(), Event::StrobeHigh);
}

#[test]
fn pressed_keys_decodes_bits_zero_and_four() {
    let mut d = LedAndKey::new();
    feed_word(&mut d, 0x00000011);
    let mut keys = [false; 8];
    d.def_pressed_keys(&mut keys);
    assert_eq!(keys, [true, false, false, false, true, false, false, false]);
}

#[test]
fn pressed_keys_decodes_all_pressed() {
    let mut d = LedAndKey::new();
    feed_word(&mut d, 0xFFFFFFFF);
    let mut keys = [false; 8];
    d.def_pressed_keys(&mut keys);
    assert_eq!(keys, [true; 8]);
}

#[test]
fn pressed_keys_each_switch_has_its_own_bit() {
    for switch in 0..8 {
        let bit = if switch < 4 { 8 * switch } else { 8 * (switch - 4) + 4 };
        let mut d = LedAndKey::new();
        feed_word(&mut d, 1u32 << bit);
        let mut keys = [false; 8];
        d.def_pressed_keys(&mut keys);
        for (i, pressed) in keys.iter().enumerate() {
            assert_eq!(*pressed, i == switch);
        }
    }
}

#[test]
fn pressed_keys_returns_the_filled_array() {
    let mut d = LedAndKey::new();
    feed_word(&mut d, 0x00000010);
    let mut keys = [false; 8];
    let filled = d.def_pressed_keys(&mut keys);
    assert_eq!(*filled, [false, false, false, false, true, false, false, false]);
}

#[test]
fn data_line_is_output_again_after_scan() {
    let mut d = LedAndKey::new();
    feed_word(&mut d, 0x00000011);
    d.scan_keys();
    assert!(d.wire.data_is_output);
    assert!(d.wire.strobe_high);
    assert!(d.wire.input.is_empty());
    // A register write straight afterwards needs no explicit mode reset.
    let base = d.wire.trace.len();
    d.set_segment_value(0, 0x7F);
    assert!(d.wire.trace.len() > base);
    assert!(d.wire.data_is_output);
}
