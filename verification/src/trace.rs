//! The event sequences the driver emits on the link, as spec functions.
//!
//! Each driver operation's contract states that its whole effect on the
//! wires equals one of these sequences, so the framing rules — which bytes
//! are clocked out, in which order, and inside which strobe window — are
//! stated once, here, and proved of the executable code.

use vstd::prelude::*;

use crate::bits::{lemma_u8_eq_by_bits, u8_bit};
use crate::instructions::{
    ctrl_opcode, BRIGHTNESS, DATA_READ_INSTR, DATA_WRITE_INSTR, SET_ADDRESS_INSTR, SET_DATA_INSTR,
};
use crate::wire::Event;

verus! {

/// The data-line event that drives the given level.
pub open spec fn data_level_event(level: bool) -> Event {
    if level {
        Event::DataHigh
    } else {
        Event::DataLow
    }
}

/// Clocking out bit `i` of `byte`: clock low, drive the bit, clock high.
pub open spec fn write_bit_events(byte: u8, i: u8) -> Seq<Event> {
    seq![Event::ClockLow, data_level_event(u8_bit(byte, i)), Event::ClockHigh]
}

/// The first `n` bits of `byte` clocked out, LSB first.
pub open spec fn write_byte_trace_upto(byte: u8, n: int) -> Seq<Event>
    decreases n,
{
    if n <= 0 {
        Seq::empty()
    } else {
        write_byte_trace_upto(byte, n - 1) + write_bit_events(byte, (n - 1) as u8)
    }
}

/// One whole byte clocked out, LSB first: 8 clock pulses, each carrying
/// one bit on the data line.
pub open spec fn write_byte_trace(byte: u8) -> Seq<Event> {
    write_byte_trace_upto(byte, 8)
}

/// A standalone one-byte instruction: its own strobe-low window around
/// the instruction byte.
pub open spec fn instr_trace(code: u8) -> Seq<Event> {
    seq![Event::StrobeLow] + write_byte_trace(code) + seq![Event::StrobeHigh]
}

/// A display-control emission: the lines are first forced to their rest
/// levels, then the opcode is sent as a standalone instruction.
pub open spec fn ctrl_trace(code: u8) -> Seq<Event> {
    seq![Event::StrobeHigh, Event::DataLow, Event::ClockLow] + instr_trace(code)
}

/// The payload bytes of a write transaction, clocked out in order.
pub open spec fn payload_trace(payload: Seq<u8>) -> Seq<Event>
    decreases payload.len(),
{
    if payload.len() == 0 {
        Seq::empty()
    } else {
        payload_trace(payload.drop_last()) + write_byte_trace(payload.last())
    }
}

/// A complete write transaction: the data-write-mode instruction in its
/// own strobe window, then one window holding the address byte and the
/// payload bytes (the chip auto-increments the address after each byte).
pub open spec fn write_txn_trace(address: u8, payload: Seq<u8>) -> Seq<Event> {
    instr_trace(SET_DATA_INSTR | DATA_WRITE_INSTR) + seq![Event::StrobeLow] + write_byte_trace(
        SET_ADDRESS_INSTR | address,
    ) + payload_trace(payload) + seq![Event::StrobeHigh]
}

/// Clocking in one bit: clock low, clock high, sample right after the
/// rising edge.
pub open spec fn read_bit_events(level: bool) -> Seq<Event> {
    seq![Event::ClockLow, Event::ClockHigh, Event::DataSample(level)]
}

/// The first `n` of the given levels clocked in.
pub open spec fn read_byte_trace_upto(levels: Seq<bool>, n: int) -> Seq<Event>
    decreases n,
{
    if n <= 0 {
        Seq::empty()
    } else {
        read_byte_trace_upto(levels, n - 1) + read_bit_events(levels[n - 1])
    }
}

/// One whole byte clocked in: the data line switches to input mode, 8
/// bits are sampled LSB first, and the line returns to output mode.
pub open spec fn read_byte_trace(levels: Seq<bool>) -> Seq<Event> {
    seq![Event::DataToInput] + read_byte_trace_upto(levels, 8) + seq![Event::DataToOutput]
}

/// The first `n` of the four key-scan bytes clocked in; `levels` holds
/// all 32 sampled levels.
pub open spec fn scan_reads_upto(levels: Seq<bool>, n: int) -> Seq<Event>
    decreases n,
{
    if n <= 0 {
        Seq::empty()
    } else {
        scan_reads_upto(levels, n - 1) + read_byte_trace(levels.subrange(8 * (n - 1), 8 * n))
    }
}

/// A complete key-scan transaction: one strobe window holding the
/// data-read instruction followed by the four scan bytes.
pub open spec fn scan_trace(levels: Seq<bool>) -> Seq<Event> {
    seq![Event::StrobeLow] + write_byte_trace(SET_DATA_INSTR | DATA_READ_INSTR) + scan_reads_upto(
        levels,
        4,
    ) + seq![Event::StrobeHigh]
}

/// `n` zero bytes.
pub open spec fn zero_bytes(n: int) -> Seq<u8> {
    Seq::new(n as nat, |i: int| 0u8)
}

/// Clearing the display memory: a single write transaction that zeroes
/// all 16 registers, addresses 0 through 15, in one auto-incrementing
/// burst.
pub open spec fn cleanup_trace() -> Seq<Event> {
    write_txn_trace(0, zero_bytes(16))
}

/// Construction: the lines are forced to their rest state (strobe high,
/// data and clock low, data line in output mode), the default
/// display-control opcode is emitted (display on, maximum brightness),
/// and the display memory is cleared.
pub open spec fn init_trace() -> Seq<Event> {
    seq![Event::StrobeHigh, Event::DataLow, Event::ClockLow, Event::DataToOutput] + ctrl_trace(
        ctrl_opcode(true, BRIGHTNESS),
    ) + cleanup_trace()
}

/// The data-line levels driven over the course of a trace, in order.
pub open spec fn data_bits(t: Seq<Event>) -> Seq<bool>
    decreases t.len(),
{
    if t.len() == 0 {
        Seq::empty()
    } else {
        data_bits(t.drop_last()) + (match t.last() {
            Event::DataLow => seq![false],
            Event::DataHigh => seq![true],
            _ => Seq::empty(),
        })
    }
}

/// The data levels of a concatenation are the concatenated data levels.
pub proof fn lemma_data_bits_concat(a: Seq<Event>, b: Seq<Event>)
    ensures
        data_bits(a + b) == data_bits(a) + data_bits(b),
    decreases b.len(),
{
    if b.len() == 0 {
        assert(a + b =~= a);
        assert(data_bits(a) + Seq::<bool>::empty() =~= data_bits(a));
    } else {
        lemma_data_bits_concat(a, b.drop_last());
        assert((a + b).drop_last() =~= a + b.drop_last());
        assert((a + b).last() == b.last());
        assert(data_bits(a + b) =~= data_bits(a) + data_bits(b));
    }
}

/// Clocking a byte out drives exactly its eight bits on the data line,
/// LSB first.
pub proof fn lemma_write_byte_trace_bits(byte: u8)
    ensures
        data_bits(write_byte_trace(byte)).len() == 8,
        forall|i: u8| i < 8 ==> data_bits(write_byte_trace(byte))[i as int] == u8_bit(byte, i),
{
    lemma_write_byte_trace_bits_upto(byte, 8);
}

/// Loopback: a byte clocked out LSB first, whose driven data levels are
/// then reassembled LSB first into a byte — as [`LedAndKey::read_byte`]
/// assembles what it samples — is reproduced exactly.
///
/// [`LedAndKey::read_byte`]: crate::driver::LedAndKey::read_byte
pub proof fn lemma_byte_loopback(byte: u8, reassembled: u8)
    requires
        forall|i: u8|
            i < 8 ==> #[trigger] u8_bit(reassembled, i) == data_bits(write_byte_trace(byte))[i as int],
    ensures
        reassembled == byte,
{
    lemma_write_byte_trace_bits(byte);
    lemma_u8_eq_by_bits(reassembled, byte);
}

/// The first `n` clocked-out bits drive levels `u8_bit(byte, 0..n)`.
proof fn lemma_write_byte_trace_bits_upto(byte: u8, n: int)
    requires
        0 <= n <= 8,
    ensures
        data_bits(write_byte_trace_upto(byte, n)).len() == n,
        forall|i: u8| i < n ==> data_bits(write_byte_trace_upto(byte, n))[i as int] == u8_bit(
            byte,
            i,
        ),
    decreases n,
{
    if n > 0 {
        lemma_write_byte_trace_bits_upto(byte, n - 1);
        lemma_data_bits_concat(write_byte_trace_upto(byte, n - 1), write_bit_events(byte, (n
            - 1) as u8));
        assert(data_bits(write_bit_events(byte, (n - 1) as u8)) =~= seq![u8_bit(byte, (n
            - 1) as u8)]) by {
            let level = u8_bit(byte, (n - 1) as u8);
            let e = write_bit_events(byte, (n - 1) as u8);
            assert(e.drop_last() =~= seq![Event::ClockLow, data_level_event(level)]);
            assert(e.drop_last().drop_last() =~= seq![Event::ClockLow]);
            assert(seq![Event::ClockLow].drop_last() =~= Seq::<Event>::empty());
            assert(data_bits(Seq::<Event>::empty()) =~= Seq::<bool>::empty());
            assert(seq![Event::ClockLow].last() == Event::ClockLow);
            assert(data_bits(seq![Event::ClockLow]) =~= Seq::<bool>::empty());
            assert(data_bits(e.drop_last()) =~= seq![level]);
        }
    }
}

} // verus!
