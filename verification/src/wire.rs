//! Model of the 3-wire serial link.
//!
//! The driver owns three lines: a strobe output, a clock output, and a
//! bidirectional data line. This module models their state exactly as the
//! driver can observe and change it: the current level of each line, the
//! direction of the data line, the full trace of transitions performed so
//! far, and the queue of data-line levels the peripheral will present
//! while the data line is in input mode. An adapter replaying the trace
//! onto real pins performs exactly the recorded transitions, so every
//! contract over the trace is a contract about what happens on the wires.

use vstd::prelude::*;

verus! {

/// One observable transition on the 3-wire link, in the order performed.
#[derive(Clone, Copy, Debug, PartialEq, Eq, Structural)]
pub enum Event {
    /// Strobe line driven low (a transaction window opens).
    StrobeLow,
    /// Strobe line driven high (the transaction window closes).
    StrobeHigh,
    /// Clock line driven low.
    ClockLow,
    /// Clock line driven high (the peer latches data on this edge).
    ClockHigh,
    /// Data line driven low (output mode).
    DataLow,
    /// Data line driven high (output mode).
    DataHigh,
    /// Data line switched to input mode with pull-up.
    DataToInput,
    /// Data line switched back to push-pull output mode.
    DataToOutput,
    /// Data line sampled while in input mode; the value seen.
    DataSample(bool),
}

/// The state of the three lines as the driver sees it.
pub struct Wire {
    /// Level of the strobe line; `true` is high.
    pub strobe_high: bool,
    /// Level of the clock line; `true` is high.
    pub clock_high: bool,
    /// Level driven on the data line while it is in output mode.
    pub data_high: bool,
    /// Direction of the data line; `true` is output mode.
    pub data_is_output: bool,
    /// Every transition performed so far, oldest first.
    pub trace: Vec<Event>,
    /// Levels the peripheral will present on the data line, oldest first;
    /// each sample consumes one.
    pub input: Vec<bool>,
}

/// `post` extends `pre`'s trace by exactly one event and leaves the
/// pending input levels alone.
pub open spec fn emits(pre: Wire, post: Wire, e: Event) -> bool {
    &&& post.trace@ == pre.trace@.push(e)
    &&& post.input@ == pre.input@
}

impl Wire {
    /// A link whose lines are all low, with the data line in output mode
    /// and nothing recorded or pending.
    pub fn new() -> (w: Wire)
        ensures
            !w.strobe_high,
            !w.clock_high,
            !w.data_high,
            w.data_is_output,
            w.trace@ == Seq::<Event>::empty(),
            w.input@ == Seq::<bool>::empty(),
    {
        Wire {
            strobe_high: false,
            clock_high: false,
            data_high: false,
            data_is_output: true,
            trace: Vec::new(),
            input: Vec::new(),
        }
    }

    /// Drive the strobe line high.
    pub fn set_strobe_high(&mut self)
        ensures
            emits(*old(self), *final(self), Event::StrobeHigh),
            final(self).strobe_high,
            final(self).clock_high == old(self).clock_high,
            final(self).data_high == old(self).data_high,
            final(self).data_is_output == old(self).data_is_output,
    {
        self.strobe_high = true;
        self.trace.push(Event::StrobeHigh);
    }

    /// Drive the strobe line low.
    pub fn set_strobe_low(&mut self)
        ensures
            emits(*old(self), *final(self), Event::StrobeLow),
            !final(self).strobe_high,
            final(self).clock_high == old(self).clock_high,
            final(self).data_high == old(self).data_high,
            final(self).data_is_output == old(self).data_is_output,
    {
        self.strobe_high = false;
        self.trace.push(Event::StrobeLow);
    }

    /// Drive the clock line high.
    pub fn set_clock_high(&mut self)
        ensures
            emits(*old(self), *final(self), Event::ClockHigh),
            final(self).clock_high,
            final(self).strobe_high == old(self).strobe_high,
            final(self).data_high == old(self).data_high,
            final(self).data_is_output == old(self).data_is_output,
    {
        self.clock_high = true;
        self.trace.push(Event::ClockHigh);
    }

    /// Drive the clock line low.
    pub fn set_clock_low(&mut self)
        ensures
            emits(*old(self), *final(self), Event::ClockLow),
            !final(self).clock_high,
            final(self).strobe_high == old(self).strobe_high,
            final(self).data_high == old(self).data_high,
            final(self).data_is_output == old(self).data_is_output,
    {
        self.clock_high = false;
        self.trace.push(Event::ClockLow);
    }

    /// Drive the data line high; only meaningful in output mode.
    pub fn set_data_high(&mut self)
        requires
            old(self).data_is_output,
        ensures
            emits(*old(self), *final(self), Event::DataHigh),
            final(self).data_high,
            final(self).strobe_high == old(self).strobe_high,
            final(self).clock_high == old(self).clock_high,
            final(self).data_is_output,
    {
        self.data_high = true;
        self.trace.push(Event::DataHigh);
    }

    /// Drive the data line low; only meaningful in output mode.
    pub fn set_data_low(&mut self)
        requires
            old(self).data_is_output,
        ensures
            emits(*old(self), *final(self), Event::DataLow),
            !final(self).data_high,
            final(self).strobe_high == old(self).strobe_high,
            final(self).clock_high == old(self).clock_high,
            final(self).data_is_output,
    {
        self.data_high = false;
        self.trace.push(Event::DataLow);
    }

    /// Switch the data line to input mode with pull-up.
    pub fn set_data_input(&mut self)
        ensures
            emits(*old(self), *final(self), Event::DataToInput),
            !final(self).data_is_output,
            final(self).strobe_high == old(self).strobe_high,
            final(self).clock_high == old(self).clock_high,
            final(self).data_high == old(self).data_high,
    {
        self.data_is_output = false;
        self.trace.push(Event::DataToInput);
    }

    /// Switch the data line back to push-pull output mode.
    pub fn set_data_output(&mut self)
        ensures
            emits(*old(self), *final(self), Event::DataToOutput),
            final(self).data_is_output,
            final(self).strobe_high == old(self).strobe_high,
            final(self).clock_high == old(self).clock_high,
            final(self).data_high == old(self).data_high,
    {
        self.data_is_output = true;
        self.trace.push(Event::DataToOutput);
    }

    /// Sample the data line while in input mode: the oldest pending level
    /// is consumed and recorded.
    pub fn sample_data(&mut self) -> (r: bool)
        requires
            !old(self).data_is_output,
            old(self).input@.len() > 0,
        ensures
            r == old(self).input@[0],
            final(self).input@ == old(self).input@.skip(1),
            final(self).trace@ == old(self).trace@.push(Event::DataSample(r)),
            !final(self).data_is_output,
            final(self).strobe_high == old(self).strobe_high,
            final(self).clock_high == old(self).clock_high,
            final(self).data_high == old(self).data_high,
    {
        let r = self.input.remove(0);
        self.trace.push(Event::DataSample(r));
        proof {
            assert(self.input@ =~= old(self).input@.skip(1));
        }
        r
    }

    /// Enqueue one level for the peripheral to present on the data line.
    pub fn feed_input(&mut self, level: bool)
        ensures
            final(self).input@ == old(self).input@.push(level),
            final(self).trace@ == old(self).trace@,
            final(self).strobe_high == old(self).strobe_high,
            final(self).clock_high == old(self).clock_high,
            final(self).data_high == old(self).data_high,
            final(self).data_is_output == old(self).data_is_output,
    {
        self.input.push(level);
    }
}

} // verus!
