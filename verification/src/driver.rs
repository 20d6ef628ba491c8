//! The driver itself: byte transport, instruction framing, the register /
//! LED / segment API, and the key scan, over the [`Wire`] model.
//!
//! Every operation's contract gives the exact event sequence appended to
//! the wire trace, together with the line state left behind, so a caller
//! knows byte-for-byte and edge-for-edge what reached the peripheral.

use vstd::prelude::*;

use crate::bits::{lemma_u32_or_bits, lemma_u32_shifted_byte_bits, lemma_u8_set_bit, u32_bit,
    u8_bit};
use crate::instructions;
use crate::instructions::ctrl_opcode;
use crate::trace::{ctrl_trace, init_trace, instr_trace, payload_trace, read_bit_events,
    read_byte_trace, read_byte_trace_upto, scan_reads_upto, scan_trace, write_bit_events,
    write_byte_trace, write_byte_trace_upto, write_txn_trace, zero_bytes};
use crate::wire::{Event, Wire};

verus! {

/// Driver for the LED / 7-segment / key-matrix peripheral.
///
/// It exclusively owns the three lines of the link, plus the two fields
/// mirroring chip configuration: whether the display is enabled, and the
/// brightness level `0..=7`. The mirror is write-only — the chip offers
/// no read-back — so these fields are the authoritative record.
pub struct LedAndKey {
    /// The 3-wire link.
    pub wire: Wire,
    /// Display enabled, as last commanded.
    pub display: bool,
    /// Brightness level `0..=7`, as last commanded.
    pub brightness: u8,
}

impl LedAndKey {
    /// The configuration mirror is within range.
    pub open spec fn wf(self) -> bool {
        self.brightness <= 7
    }

    /// The link is at rest: strobe high (no transaction window open) and
    /// the data line in output mode.
    pub open spec fn at_rest(self) -> bool {
        self.wire.strobe_high && self.wire.data_is_output
    }

    /// Clock one byte out, LSB first: for each bit, clock low, drive the
    /// data line to the bit's level, clock high.
    pub fn write_byte(&mut self, byte: u8)
        requires
            old(self).wire.data_is_output,
        ensures
            final(self).wire.trace@ == old(self).wire.trace@ + write_byte_trace(byte),
            final(self).wire.input@ == old(self).wire.input@,
            final(self).wire.data_is_output,
            final(self).wire.strobe_high == old(self).wire.strobe_high,
            final(self).wire.clock_high,
            final(self).wire.data_high == u8_bit(byte, 7),
            final(self).display == old(self).display,
            final(self).brightness == old(self).brightness,
    {
        let ghost t0 = self.wire.trace@;
        let mut i: u8 = 0;
        while i < 8
            invariant
                i <= 8,
                self.wire.data_is_output,
                self.wire.trace@ == t0 + write_byte_trace_upto(byte, i as int),
                self.wire.input@ == old(self).wire.input@,
                self.wire.strobe_high == old(self).wire.strobe_high,
                i > 0 ==> self.wire.clock_high,
                i > 0 ==> self.wire.data_high == u8_bit(byte, (i - 1) as u8),
                self.display == old(self).display,
                self.brightness == old(self).brightness,
            decreases 8 - i,
        {
            self.wire.set_clock_low();
            if (byte >> i) & 1 == 0 {
                proof {
                    assert((byte >> i) & 1 == 0 ==> !((byte >> i) & 1 == 1)) by (bit_vector);
                }
                self.wire.set_data_low();
            } else {
                proof {
                    assert(((byte >> i) & 1 != 0) ==> ((byte >> i) & 1 == 1)) by (bit_vector);
                }
                self.wire.set_data_high();
            }
            self.wire.set_clock_high();
            proof {
                assert(write_byte_trace_upto(byte, i as int + 1) == write_byte_trace_upto(
                    byte,
                    i as int,
                ) + write_bit_events(byte, i));
                assert(self.wire.trace@ =~= t0 + write_byte_trace_upto(byte, i as int + 1));
            }
            i = i + 1;
        }
        proof {
            assert(self.wire.trace@ == t0 + write_byte_trace(byte));
        }
    }

    /// Clock one byte in, LSB first: the data line switches to input
    /// mode with pull-up, each of 8 bits is sampled right after a rising
    /// clock edge, and the line is restored to output mode.
    ///
    /// The byte returned has bit `i` equal to the `i`-th pending level.
    pub fn read_byte(&mut self) -> (r: u8)
        requires
            old(self).wire.data_is_output,
            old(self).wire.input@.len() >= 8,
        ensures
            forall|i: u8| i < 8 ==> #[trigger] u8_bit(r, i) == old(self).wire.input@[i as int],
            final(self).wire.input@ == old(self).wire.input@.skip(8),
            final(self).wire.trace@ == old(self).wire.trace@ + read_byte_trace(
                old(self).wire.input@.take(8),
            ),
            final(self).wire.data_is_output,
            final(self).wire.strobe_high == old(self).wire.strobe_high,
            final(self).wire.clock_high,
            final(self).wire.data_high == old(self).wire.data_high,
            final(self).display == old(self).display,
            final(self).brightness == old(self).brightness,
    {
        let ghost inp0 = old(self).wire.input@;
        self.wire.set_data_input();
        let ghost t0 = self.wire.trace@;
        let mut byte: u8 = 0;
        let mut i: u8 = 0;
        proof {
            assert(forall|j: u8| j < 8 ==> !u8_bit(0u8, j)) by (bit_vector);
        }
        while i < 8
            invariant
                i <= 8,
                !self.wire.data_is_output,
                inp0.len() >= 8,
                self.wire.input@ == inp0.skip(i as int),
                self.wire.trace@ == t0 + read_byte_trace_upto(inp0.take(8), i as int),
                forall|j: u8| j < i ==> #[trigger] u8_bit(byte, j) == inp0[j as int],
                forall|j: u8| i <= j && j < 8 ==> !(#[trigger] u8_bit(byte, j)),
                i > 0 ==> self.wire.clock_high,
                self.wire.strobe_high == old(self).wire.strobe_high,
                self.wire.data_high == old(self).wire.data_high,
                self.display == old(self).display,
                self.brightness == old(self).brightness,
            decreases 8 - i,
        {
            self.wire.set_clock_low();
            self.wire.set_clock_high();
            let level = self.wire.sample_data();
            proof {
                assert(inp0.skip(i as int)[0] == inp0[i as int]);
                assert(inp0.take(8)[i as int] == inp0[i as int]);
            }
            if level {
                proof {
                    lemma_u8_set_bit(byte, i);
                }
                byte = byte | (1u8 << i);
            }
            proof {
                assert(read_byte_trace_upto(inp0.take(8), i as int + 1) == read_byte_trace_upto(
                    inp0.take(8),
                    i as int,
                ) + read_bit_events(inp0.take(8)[i as int]));
                assert(self.wire.trace@ =~= t0 + read_byte_trace_upto(inp0.take(8), i as int + 1));
                assert(inp0.skip(i as int).skip(1) =~= inp0.skip(i as int + 1));
            }
            i = i + 1;
        }
        self.wire.set_data_output();
        proof {
            assert(self.wire.trace@ =~= old(self).wire.trace@ + read_byte_trace(inp0.take(8)));
        }
        byte
    }

    /// Send one standalone instruction byte inside its own strobe-low
    /// window: strobe low, the byte, strobe high.
    pub fn push_instruction(&mut self, instruction: u8)
        requires
            old(self).wire.data_is_output,
        ensures
            final(self).wire.trace@ == old(self).wire.trace@ + instr_trace(instruction),
            final(self).wire.input@ == old(self).wire.input@,
            final(self).wire.data_is_output,
            final(self).wire.strobe_high,
            final(self).wire.clock_high,
            final(self).wire.data_high == u8_bit(instruction, 7),
            final(self).display == old(self).display,
            final(self).brightness == old(self).brightness,
    {
        self.wire.set_strobe_low();
        self.write_byte(instruction);
        self.wire.set_strobe_high();
        proof {
            assert(self.wire.trace@ =~= old(self).wire.trace@ + instr_trace(instruction));
        }
    }

    /// Select data-write mode: automatic address increment, normal
    /// operation, sent as a standalone instruction.
    pub fn push_data_write_instr(&mut self)
        requires
            old(self).wire.data_is_output,
        ensures
            final(self).wire.trace@ == old(self).wire.trace@ + instr_trace(
                instructions::SET_DATA_INSTR | instructions::DATA_WRITE_INSTR,
            ),
            final(self).wire.input@ == old(self).wire.input@,
            final(self).wire.data_is_output,
            final(self).wire.strobe_high,
            final(self).wire.clock_high,
            final(self).display == old(self).display,
            final(self).brightness == old(self).brightness,
    {
        self.push_instruction(instructions::SET_DATA_INSTR | instructions::DATA_WRITE_INSTR);
    }

    /// Select the register the next written byte goes to. The byte is
    /// sent bare — the caller owns the surrounding strobe window.
    pub fn push_address_instr(&mut self, address: u8)
        requires
            old(self).wire.data_is_output,
            address <= 15,
        ensures
            final(self).wire.trace@ == old(self).wire.trace@ + write_byte_trace(
                instructions::SET_ADDRESS_INSTR | address,
            ),
            final(self).wire.input@ == old(self).wire.input@,
            final(self).wire.data_is_output,
            final(self).wire.strobe_high == old(self).wire.strobe_high,
            final(self).wire.clock_high,
            final(self).display == old(self).display,
            final(self).brightness == old(self).brightness,
    {
        self.write_byte(instructions::SET_ADDRESS_INSTR | address);
    }

    /// Re-emit the display-control opcode for the current configuration:
    /// the lines are forced to their rest levels, then
    /// `SET_DISPLAY_CTRL | (on ? ON : OFF) | brightness` is sent as a
    /// standalone instruction.
    pub fn push_display_ctrl_instr(&mut self)
        requires
            old(self).wire.data_is_output,
        ensures
            final(self).wire.trace@ == old(self).wire.trace@ + ctrl_trace(
                ctrl_opcode(old(self).display, old(self).brightness),
            ),
            final(self).wire.input@ == old(self).wire.input@,
            final(self).wire.data_is_output,
            final(self).wire.strobe_high,
            final(self).wire.clock_high,
            final(self).display == old(self).display,
            final(self).brightness == old(self).brightness,
    {
        self.wire.set_strobe_high();
        self.wire.set_data_low();
        self.wire.set_clock_low();

        let display_instr: u8;

        if self.display {
            display_instr = instructions::DISPLAY_ON_INSTR;
        } else {
            display_instr = instructions::DISPLAY_OFF_INSTR;
        }

        self.push_instruction(
            instructions::SET_DISPLAY_CTRL_INSTR | display_instr | self.brightness,
        );
        proof {
            assert(self.wire.trace@ =~= old(self).wire.trace@ + ctrl_trace(
                ctrl_opcode(old(self).display, old(self).brightness),
            ));
        }
    }

    /// Write one byte to the display register at `position`: a complete
    /// write transaction with a single payload byte.
    pub fn write(&mut self, position: u8, data: u8)
        requires
            old(self).wire.data_is_output,
            position <= 15,
        ensures
            final(self).wire.trace@ == old(self).wire.trace@ + write_txn_trace(
                position,
                seq![data],
            ),
            final(self).wire.input@ == old(self).wire.input@,
            final(self).wire.data_is_output,
            final(self).wire.strobe_high,
            final(self).wire.clock_high,
            final(self).display == old(self).display,
            final(self).brightness == old(self).brightness,
    {
        self.push_data_write_instr();

        self.wire.set_strobe_low();
        self.push_address_instr(position);
        self.write_byte(data);
        self.wire.set_strobe_high();
        proof {
            assert(seq![data].drop_last() =~= Seq::<u8>::empty());
            assert(seq![data].last() == data);
            assert(payload_trace(Seq::<u8>::empty()) =~= Seq::<Event>::empty());
            assert(payload_trace(seq![data]) =~= write_byte_trace(data));
            assert(self.wire.trace@ =~= old(self).wire.trace@ + write_txn_trace(
                position,
                seq![data],
            ));
        }
    }

    /// Enable the display and re-emit the display-control opcode.
    pub fn display_on(&mut self)
        requires
            old(self).wire.data_is_output,
        ensures
            display_on_post(*old(self), *final(self)),
            final(self).at_rest(),
            final(self).wire.clock_high,
    {
        self.display = true;
        self.push_display_ctrl_instr();
    }

    /// Disable the display and re-emit the display-control opcode. The
    /// brightness is left unchanged, so the opcode sent is determined by
    /// the brightness alone.
    pub fn display_off(&mut self)
        requires
            old(self).wire.data_is_output,
        ensures
            display_off_post(*old(self), *final(self)),
            final(self).at_rest(),
            final(self).wire.clock_high,
    {
        self.display = false;
        self.push_display_ctrl_instr();
    }

    /// Set the brightness of the LEDs and segments, `value` in `0..=7`,
    /// and re-emit the display-control opcode.
    pub fn set_brightness(&mut self, value: u8)
        requires
            old(self).wire.data_is_output,
            value <= 7,
        ensures
            set_brightness_post(*old(self), *final(self), value),
            final(self).at_rest(),
            final(self).wire.clock_high,
            final(self).wf(),
    {
        self.brightness = value;
        self.push_display_ctrl_instr();
    }

    /// Set the segment pattern of digit `position`, `0..=7`: one byte
    /// written to the even register at address `2 * position`.
    pub fn set_segment_value(&mut self, position: u8, value: u8)
        requires
            old(self).wire.data_is_output,
            position <= 7,
        ensures
            final(self).wire.trace@ == old(self).wire.trace@ + write_txn_trace(
                (2 * position) as u8,
                seq![value],
            ),
            final(self).wire.input@ == old(self).wire.input@,
            final(self).at_rest(),
            final(self).wire.clock_high,
            final(self).display == old(self).display,
            final(self).brightness == old(self).brightness,
    {
        proof {
            assert(position << 1u8 == 2 * position && position << 1u8 <= 15) by (bit_vector)
                requires
                    position <= 7,
            ;
        }
        self.write(position << 1, value);
    }

    /// Set the state of LED `position`, `0..=7`, to `state`, 0 or 1: one
    /// byte written to the odd register at address `2 * position + 1`.
    /// The byte is written verbatim, without masking.
    pub fn set_led_state(&mut self, position: u8, state: u8)
        requires
            old(self).wire.data_is_output,
            position <= 7,
            state <= 1,
        ensures
            final(self).wire.trace@ == old(self).wire.trace@ + write_txn_trace(
                (2 * position + 1) as u8,
                seq![state],
            ),
            final(self).wire.input@ == old(self).wire.input@,
            final(self).at_rest(),
            final(self).wire.clock_high,
            final(self).display == old(self).display,
            final(self).brightness == old(self).brightness,
    {
        proof {
            assert(position << 1u8 == 2 * position && position << 1u8 <= 14) by (bit_vector)
                requires
                    position <= 7,
            ;
        }
        self.write((position << 1) + 1, state);
    }

    /// Clear the display memory: one write transaction that zeroes all
    /// 16 registers, addresses 0 through 15, in a single
    /// auto-incrementing burst, then closes its strobe window.
    pub fn cleanup(&mut self)
        requires
            old(self).wire.data_is_output,
        ensures
            final(self).wire.trace@ == old(self).wire.trace@ + write_txn_trace(0, zero_bytes(16)),
            final(self).wire.input@ == old(self).wire.input@,
            final(self).at_rest(),
            final(self).wire.clock_high,
            final(self).display == old(self).display,
            final(self).brightness == old(self).brightness,
    {
        self.push_data_write_instr();
        self.wire.set_strobe_low();
        self.push_address_instr(instructions::NULL);

        let ghost t0 = self.wire.trace@;
        let mut i: u8 = 0;
        proof {
            assert(zero_bytes(0) =~= Seq::<u8>::empty());
            assert(payload_trace(zero_bytes(0)) =~= Seq::<Event>::empty());
            assert(self.wire.trace@ =~= t0 + payload_trace(zero_bytes(0)));
        }
        while i < 16
            invariant
                i <= 16,
                self.wire.data_is_output,
                !self.wire.strobe_high,
                self.wire.clock_high,
                self.wire.trace@ == t0 + payload_trace(zero_bytes(i as int)),
                self.wire.input@ == old(self).wire.input@,
                self.display == old(self).display,
                self.brightness == old(self).brightness,
            decreases 16 - i,
        {
            self.write_byte(instructions::NULL);
            proof {
                assert(zero_bytes(i as int + 1).drop_last() =~= zero_bytes(i as int));
                assert(zero_bytes(i as int + 1).last() == 0u8);
                assert(self.wire.trace@ =~= t0 + payload_trace(zero_bytes(i as int + 1)));
            }
            i = i + 1;
        }

        self.wire.set_strobe_high();
        proof {
            assert(instructions::SET_ADDRESS_INSTR | instructions::NULL
                == instructions::SET_ADDRESS_INSTR | 0u8);
            assert(self.wire.trace@ =~= old(self).wire.trace@ + write_txn_trace(
                0,
                zero_bytes(16),
            ));
        }
    }

    /// Run one key-scan transaction: inside a single strobe window, send
    /// the data-read instruction and clock in 4 bytes, byte `i` landing
    /// at bit offset `8 * i` of the result.
    ///
    /// Bit `j` of the result is exactly the `j`-th sampled level, and
    /// the data line is back in output mode when the scan completes.
    pub fn scan_keys(&mut self) -> (r: u32)
        requires
            old(self).wire.data_is_output,
            old(self).wire.input@.len() >= 32,
        ensures
            forall|j: u32| j < 32 ==> #[trigger] u32_bit(r, j) == old(self).wire.input@[j as int],
            final(self).wire.input@ == old(self).wire.input@.skip(32),
            final(self).wire.trace@ == old(self).wire.trace@ + scan_trace(
                old(self).wire.input@.take(32),
            ),
            final(self).at_rest(),
            final(self).wire.clock_high,
            final(self).display == old(self).display,
            final(self).brightness == old(self).brightness,
    {
        let ghost inp0 = old(self).wire.input@;
        let ghost bits32 = inp0.take(32);
        self.wire.set_strobe_low();
        self.write_byte(instructions::SET_DATA_INSTR | instructions::DATA_READ_INSTR);
        let ghost t1 = self.wire.trace@;

        let mut data: u32 = 0;
        let mut i: u8 = 0;
        proof {
            assert(forall|j: u32| j < 32 ==> !u32_bit(0u32, j)) by (bit_vector);
            assert(scan_reads_upto(bits32, 0) =~= Seq::<Event>::empty());
            assert(self.wire.trace@ =~= t1 + scan_reads_upto(bits32, 0));
        }
        while i < 4
            invariant
                i <= 4,
                inp0.len() >= 32,
                bits32 == inp0.take(32),
                self.wire.data_is_output,
                !self.wire.strobe_high,
                self.wire.clock_high,
                self.wire.input@ == inp0.skip(8 * i as int),
                self.wire.trace@ == t1 + scan_reads_upto(bits32, i as int),
                forall|j: u32|
                    j < 8 * (i as u32) ==> #[trigger] u32_bit(data, j) == inp0[j as int],
                forall|j: u32| 8 * (i as u32) <= j && j < 32 ==> !(#[trigger] u32_bit(data, j)),
                self.display == old(self).display,
                self.brightness == old(self).brightness,
            decreases 4 - i,
        {
            let ghost cur = self.wire.input@;
            let value = self.read_byte();
            let shift: u32 = 8 * (i as u32);
            let x: u32 = (value as u32) << shift;
            proof {
                lemma_u32_or_bits(data, x);
                lemma_u32_shifted_byte_bits(value, i as u32);
                assert forall|j: u32| j < 8 * (i as u32) + 8 implies #[trigger] u32_bit(
                    data | x,
                    j,
                ) == inp0[j as int] by {
                    if j < 8 * (i as u32) {
                        assert(!u32_bit(x, j));
                        assert(u32_bit(data, j) == inp0[j as int]);
                    } else {
                        let k = (j - 8 * (i as u32)) as u8;
                        assert(!u32_bit(data, j));
                        assert(u32_bit(x, j) == u8_bit(value, k));
                        assert(u8_bit(value, k) == cur[k as int]);
                        assert(cur[k as int] == inp0[8 * i as int + k as int]);
                    }
                }
                assert forall|j: u32| 8 * (i as u32) + 8 <= j && j < 32 implies !(#[trigger] u32_bit(
                    data | x,
                    j,
                )) by {
                    assert(!u32_bit(data, j));
                    assert(!u32_bit(x, j));
                }
                assert(cur.take(8) =~= bits32.subrange(8 * i as int, 8 * i as int + 8));
                assert(scan_reads_upto(bits32, i as int + 1) == scan_reads_upto(bits32, i as int)
                    + read_byte_trace(bits32.subrange(8 * i as int, 8 * (i as int + 1))));
                assert(self.wire.trace@ =~= t1 + scan_reads_upto(bits32, i as int + 1));
                assert(cur.skip(8) =~= inp0.skip(8 * (i as int + 1)));
            }
            data = data | x;
            i = i + 1;
        }

        self.wire.set_strobe_high();
        proof {
            assert(self.wire.trace@ =~= old(self).wire.trace@ + scan_trace(bits32));
        }
        data
    }

    /// Scan the keys and decode the result into the caller's array of 8
    /// switch states, `true` for pressed: switch `i` is bit `8 * i` of
    /// the scan word, switch `i + 4` is bit `8 * i + 4`. Returns the
    /// filled array, so the call can be chained.
    pub fn def_pressed_keys<'a>(&'a mut self, keys_array: &'a mut [bool; 8]) -> (r: &'a mut [
        bool;
        8
    ])
        requires
            old(self).wire.data_is_output,
            old(self).wire.input@.len() >= 32,
        ensures
            forall|i: int| 0 <= i < 4 ==> #[trigger] (*r)@[i] == old(self).wire.input@[8 * i],
            forall|i: int|
                0 <= i < 4 ==> #[trigger] (*r)@[i + 4] == old(self).wire.input@[8 * i + 4],
            *final(keys_array) == *final(r),
            final(self).wire.input@ == old(self).wire.input@.skip(32),
            final(self).wire.trace@ == old(self).wire.trace@ + scan_trace(
                old(self).wire.input@.take(32),
            ),
            final(self).at_rest(),
            final(self).display == old(self).display,
            final(self).brightness == old(self).brightness,
    {
        let ghost inp0 = old(self).wire.input@;
        let data: u32 = self.scan_keys();

        let mut i: usize = 0;
        while i < 4
            invariant
                i <= 4,
                keys_array@.len() == 8,
                forall|j: u32| j < 32 ==> #[trigger] u32_bit(data, j) == inp0[j as int],
                forall|j: int| 0 <= j < i ==> #[trigger] keys_array@[j] == inp0[8 * j],
                forall|j: int| 0 <= j < i ==> #[trigger] keys_array@[j + 4] == inp0[8 * j + 4],
            decreases 4 - i,
        {
            let shift: u32 = 8 * (i as u32);
            keys_array[i] = if (data >> shift) & 1 == 1 {
                true
            } else {
                false
            };
            keys_array[i + 4] = if (data >> (shift + 4)) & 1 == 1 {
                true
            } else {
                false
            };
            proof {
                assert(u32_bit(data, (8 * i) as u32) == inp0[8 * i as int]);
                assert(u32_bit(data, (8 * i + 4) as u32) == inp0[8 * i as int + 4]);
            }
            i = i + 1;
        }

        keys_array
    }

    /// Construct the driver: force the lines to their rest state, emit
    /// the default display-control opcode (display on, maximum
    /// brightness), and clear the display memory.
    pub fn new() -> (d: LedAndKey)
        ensures
            d.display == true,
            d.brightness == instructions::BRIGHTNESS,
            d.wf(),
            d.at_rest(),
            d.wire.clock_high,
            d.wire.trace@ == init_trace(),
            d.wire.input@ == Seq::<bool>::empty(),
    {
        let mut wire = Wire::new();

        wire.set_strobe_high();
        wire.set_data_low();
        wire.set_clock_low();
        wire.set_data_output();

        let mut driver = LedAndKey { wire, display: true, brightness: instructions::BRIGHTNESS };
        driver.push_display_ctrl_instr();
        driver.cleanup();

        proof {
            assert(driver.wire.trace@ =~= init_trace());
        }
        driver
    }
}

/// Rejection of an out-of-range argument at the API boundary.
///
/// The wire protocol itself carries no acknowledgement or status, so no
/// hardware fault is ever observable; the only errors worth raising are
/// arguments outside the ranges the chip's registers give them.
#[derive(Clone, Copy, Debug, PartialEq, Eq, Structural)]
pub enum ConfigError {
    /// A brightness outside `0..=7`.
    BrightnessOutOfRange,
    /// A segment or LED position outside `0..=7`.
    PositionOutOfRange,
    /// An LED state other than 0 or 1.
    StateOutOfRange,
}

impl LedAndKey {
    /// Set the brightness, rejecting a value outside `0..=7`; on
    /// rejection nothing is emitted and nothing changes.
    pub fn try_set_brightness(&mut self, value: u8) -> (r: Result<(), ConfigError>)
        requires
            old(self).wire.data_is_output,
        ensures
            r is Ok <==> value <= 7,
            value <= 7 ==> set_brightness_post(*old(self), *final(self), value)
                && final(self).at_rest() && final(self).wf(),
            value > 7 ==> *final(self) == *old(self) && r == Result::<(), ConfigError>::Err(
                ConfigError::BrightnessOutOfRange,
            ),
    {
        if value <= 7 {
            self.set_brightness(value);
            Ok(())
        } else {
            Err(ConfigError::BrightnessOutOfRange)
        }
    }

    /// Set a segment pattern, rejecting a position outside `0..=7`; on
    /// rejection nothing is emitted and nothing changes.
    pub fn try_set_segment_value(&mut self, position: u8, value: u8) -> (r: Result<
        (),
        ConfigError,
    >)
        requires
            old(self).wire.data_is_output,
        ensures
            r is Ok <==> position <= 7,
            position <= 7 ==> final(self).wire.trace@ == old(self).wire.trace@ + write_txn_trace(
                (2 * position) as u8,
                seq![value],
            ) && final(self).at_rest() && final(self).display == old(self).display
                && final(self).brightness == old(self).brightness
                && final(self).wire.input@ == old(self).wire.input@,
            position > 7 ==> *final(self) == *old(self) && r == Result::<(), ConfigError>::Err(
                ConfigError::PositionOutOfRange,
            ),
    {
        if position <= 7 {
            self.set_segment_value(position, value);
            Ok(())
        } else {
            Err(ConfigError::PositionOutOfRange)
        }
    }

    /// Set an LED state, rejecting a position outside `0..=7` and a
    /// state other than 0 or 1; on rejection nothing is emitted and
    /// nothing changes.
    pub fn try_set_led_state(&mut self, position: u8, state: u8) -> (r: Result<(), ConfigError>)
        requires
            old(self).wire.data_is_output,
        ensures
            r is Ok <==> position <= 7 && state <= 1,
            position <= 7 && state <= 1 ==> final(self).wire.trace@ == old(self).wire.trace@
                + write_txn_trace((2 * position + 1) as u8, seq![state]) && final(self).at_rest()
                && final(self).display == old(self).display
                && final(self).brightness == old(self).brightness
                && final(self).wire.input@ == old(self).wire.input@,
            position > 7 ==> *final(self) == *old(self) && r == Result::<(), ConfigError>::Err(
                ConfigError::PositionOutOfRange,
            ),
            position <= 7 && state > 1 ==> *final(self) == *old(self) && r == Result::<
                (),
                ConfigError,
            >::Err(ConfigError::StateOutOfRange),
    {
        if position > 7 {
            Err(ConfigError::PositionOutOfRange)
        } else if state > 1 {
            Err(ConfigError::StateOutOfRange)
        } else {
            self.set_led_state(position, state);
            Ok(())
        }
    }
}

/// The effect of [`LedAndKey::display_on`]: the display flag is set, the
/// brightness is kept, and the opcode for "on, current brightness" is
/// emitted.
pub open spec fn display_on_post(pre: LedAndKey, post: LedAndKey) -> bool {
    &&& post.display == true
    &&& post.brightness == pre.brightness
    &&& post.wire.trace@ == pre.wire.trace@ + ctrl_trace(ctrl_opcode(true, pre.brightness))
    &&& post.wire.input@ == pre.wire.input@
}

/// The effect of [`LedAndKey::display_off`]: the display flag is
/// cleared, the brightness is kept, and the opcode for "off, current
/// brightness" is emitted.
pub open spec fn display_off_post(pre: LedAndKey, post: LedAndKey) -> bool {
    &&& post.display == false
    &&& post.brightness == pre.brightness
    &&& post.wire.trace@ == pre.wire.trace@ + ctrl_trace(ctrl_opcode(false, pre.brightness))
    &&& post.wire.input@ == pre.wire.input@
}

/// The effect of [`LedAndKey::set_brightness`]: the brightness is set,
/// the display flag is kept, and the opcode for the current display
/// state at the new brightness is emitted.
pub open spec fn set_brightness_post(pre: LedAndKey, post: LedAndKey, value: u8) -> bool {
    &&& post.display == pre.display
    &&& post.brightness == value
    &&& post.wire.trace@ == pre.wire.trace@ + ctrl_trace(ctrl_opcode(pre.display, value))
    &&& post.wire.input@ == pre.wire.input@
}

/// Enabling the display and then setting brightness `k` emits, at the
/// second step, exactly the opcode `SET_DISPLAY_CTRL | DISPLAY_ON | k`.
pub proof fn lemma_display_on_then_brightness(
    d0: LedAndKey,
    d1: LedAndKey,
    d2: LedAndKey,
    k: u8,
)
    requires
        display_on_post(d0, d1),
        set_brightness_post(d1, d2, k),
    ensures
        d2.wire.trace@ == d1.wire.trace@ + ctrl_trace(
            instructions::SET_DISPLAY_CTRL_INSTR | instructions::DISPLAY_ON_INSTR | k,
        ),
{
}

/// Disabling the display and then setting brightness `k` emits, at the
/// second step, exactly the opcode `SET_DISPLAY_CTRL | DISPLAY_OFF | k`.
pub proof fn lemma_display_off_then_brightness(
    d0: LedAndKey,
    d1: LedAndKey,
    d2: LedAndKey,
    k: u8,
)
    requires
        display_off_post(d0, d1),
        set_brightness_post(d1, d2, k),
    ensures
        d2.wire.trace@ == d1.wire.trace@ + ctrl_trace(
            instructions::SET_DISPLAY_CTRL_INSTR | instructions::DISPLAY_OFF_INSTR | k,
        ),
{
}

/// Disabling the display twice in succession emits the identical opcode
/// both times — the first call leaves the brightness unchanged, and the
/// opcode depends on the brightness alone — and the brightness after
/// both calls is what it was before either.
pub proof fn lemma_display_off_twice(d0: LedAndKey, d1: LedAndKey, d2: LedAndKey)
    requires
        display_off_post(d0, d1),
        display_off_post(d1, d2),
    ensures
        d1.wire.trace@ == d0.wire.trace@ + ctrl_trace(ctrl_opcode(false, d0.brightness)),
        d2.wire.trace@ == d1.wire.trace@ + ctrl_trace(ctrl_opcode(false, d0.brightness)),
        d2.brightness == d0.brightness,
{
}

} // verus!
