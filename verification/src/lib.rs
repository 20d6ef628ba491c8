//! Driver logic for a TM1638-style combined LED / 7-segment / key-matrix
//! controller that sits behind a 3-wire bit-banged serial link (strobe,
//! clock, bidirectional data).
//!
//! The physical pins are external collaborators; everything the driver does
//! to them is captured by the [`wire::Wire`] model, which records every line
//! transition as a [`wire::Event`]. The contracts in [`driver`] state, per
//! operation, exactly which transitions are emitted, so the wire protocol
//! itself — LSB-first bit order, strobe-bounded framing, register
//! addressing, and the key-scan decode — is what is specified and proved.
//! An adapter that replays the recorded events onto real GPIO pins lives
//! outside this crate.

pub mod bits;
pub mod driver;
pub mod instructions;
pub mod trace;
pub mod wire;

pub use driver::LedAndKey;
