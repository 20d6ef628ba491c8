//! Instruction opcodes of the peripheral's wire protocol.
//!
//! The chip understands three instruction classes: display control
//! (on/off plus a 3-bit brightness), data mode selection (write or read,
//! with automatic address increment), and address selection (one of 16
//! display registers).

use vstd::prelude::*;

verus! {

/// Display-control instruction class.
pub const SET_DISPLAY_CTRL_INSTR: u8 = 0x80;

/// Display-control modifier: display enabled.
pub const DISPLAY_ON_INSTR: u8 = 0x08;

/// Display-control modifier: display disabled.
pub const DISPLAY_OFF_INSTR: u8 = 0x00;

/// Data instruction class (mode selection, automatic address increment).
pub const SET_DATA_INSTR: u8 = 0x40;

/// Data instruction modifier: write to display registers.
pub const DATA_WRITE_INSTR: u8 = 0x00;

/// Data instruction modifier: read the key-scan bytes.
pub const DATA_READ_INSTR: u8 = 0x02;

/// Address instruction class; the low bits select a register, 0..15.
pub const SET_ADDRESS_INSTR: u8 = 0xC0;

/// A zero byte: cleared register contents, and the lowest register address.
pub const NULL: u8 = 0x00;

/// Default brightness, the maximum level.
pub const BRIGHTNESS: u8 = 0x07;

/// The display-control opcode for a given display state and brightness.
pub open spec fn ctrl_opcode(display_on: bool, brightness: u8) -> u8 {
    SET_DISPLAY_CTRL_INSTR | (if display_on {
        DISPLAY_ON_INSTR
    } else {
        DISPLAY_OFF_INSTR
    }) | brightness
}

/// The fields of a display-control opcode can be read back from it:
/// the low three bits are the brightness, bit 3 is the on/off flag, and
/// the high bits identify the instruction class.
pub proof fn lemma_ctrl_opcode_fields(display_on: bool, brightness: u8)
    requires
        brightness <= 7,
    ensures
        ctrl_opcode(display_on, brightness) & 0x07 == brightness,
        (ctrl_opcode(display_on, brightness) & 0x08 != 0) == display_on,
        ctrl_opcode(display_on, brightness) & 0xF0 == 0xF0 & SET_DISPLAY_CTRL_INSTR,
{
    assert((0x80u8 | 0x08u8 | brightness) & 0x07 == brightness) by (bit_vector)
        requires
            brightness <= 7,
    ;
    assert((0x80u8 | 0x00u8 | brightness) & 0x07 == brightness) by (bit_vector)
        requires
            brightness <= 7,
    ;
    assert((0x80u8 | 0x08u8 | brightness) & 0x08 != 0) by (bit_vector);
    assert((0x80u8 | 0x00u8 | brightness) & 0x08 == 0) by (bit_vector)
        requires
            brightness <= 7,
    ;
    assert((0x80u8 | 0x08u8 | brightness) & 0xF0 == 0x80) by (bit_vector)
        requires
            brightness <= 7,
    ;
    assert((0x80u8 | 0x00u8 | brightness) & 0xF0 == 0x80) by (bit_vector)
        requires
            brightness <= 7,
    ;
    assert(0xF0u8 & 0x80u8 == 0x80) by (bit_vector);
}

/// The register address can be read back from the address byte of a
/// write transaction: its low six bits are the address.
pub proof fn lemma_address_byte_fields(address: u8)
    requires
        address <= 15,
    ensures
        (SET_ADDRESS_INSTR | address) & 0x3F == address,
        (SET_ADDRESS_INSTR | address) & 0xC0 == SET_ADDRESS_INSTR,
{
    assert((0xC0u8 | address) & 0x3F == address && (0xC0u8 | address) & 0xC0 == 0xC0) by (bit_vector)
        requires
            address <= 15,
    ;
}

} // verus!
