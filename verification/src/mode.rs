//! Clocking modes: bit order and clock edge of each data clocking command.
//!
//! Each mode is one opcode. The families are distinct types, so a mode of
//! one family cannot be handed to a command of another.

use vstd::prelude::*;

verus! {

/// Modes for clocking bytes out of the device, for
/// [`clock_data_out`](crate::MpsseCmdBuilder::clock_data_out).
#[derive(Debug, Copy, Clone, Eq, PartialEq, Structural)]
pub enum ClockDataOut {
    /// MSB first; the data line changes on the rising clock edge.
    MsbPos,
    /// MSB first; the data line changes on the falling clock edge.
    MsbNeg,
    /// LSB first; the data line changes on the rising clock edge.
    LsbPos,
    /// LSB first; the data line changes on the falling clock edge.
    LsbNeg,
}

impl ClockDataOut {
    /// The byte that the device reads as a command in this mode.
    pub open spec fn opcode(self) -> u8 {
        match self {
            ClockDataOut::MsbPos => 0x10,
            ClockDataOut::MsbNeg => 0x11,
            ClockDataOut::LsbPos => 0x18,
            ClockDataOut::LsbNeg => 0x19,
        }
    }
}

impl From<ClockDataOut> for u8 {
    fn from(value: ClockDataOut) -> (byte: u8) {
        match value {
            ClockDataOut::MsbPos => 0x10,
            ClockDataOut::MsbNeg => 0x11,
            ClockDataOut::LsbPos => 0x18,
            ClockDataOut::LsbNeg => 0x19,
        }
    }
}

impl vstd::std_specs::convert::FromSpecImpl<ClockDataOut> for u8 {
    open spec fn obeys_from_spec() -> bool {
        true
    }

    open spec fn from_spec(value: ClockDataOut) -> u8 {
        value.opcode()
    }
}

/// Modes for clocking bits out of the device, for
/// [`clock_bits_out`](crate::MpsseCmdBuilder::clock_bits_out).
#[derive(Debug, Copy, Clone, Eq, PartialEq, Structural)]
pub enum ClockBitsOut {
    /// Bit 7 first; the data line changes on the rising clock edge.
    MsbPos,
    /// Bit 7 first; the data line changes on the falling clock edge.
    MsbNeg,
    /// Bit 0 first; the data line changes on the rising clock edge.
    LsbPos,
    /// Bit 0 first; the data line changes on the falling clock edge.
    LsbNeg,
}

impl ClockBitsOut {
    /// The byte that the device reads as a command in this mode.
    pub open spec fn opcode(self) -> u8 {
        match self {
            ClockBitsOut::MsbPos => 0x12,
            ClockBitsOut::MsbNeg => 0x13,
            ClockBitsOut::LsbPos => 0x1A,
            ClockBitsOut::LsbNeg => 0x1B,
        }
    }
}

impl From<ClockBitsOut> for u8 {
    fn from(value: ClockBitsOut) -> (byte: u8) {
        match value {
            ClockBitsOut::MsbPos => 0x12,
            ClockBitsOut::MsbNeg => 0x13,
            ClockBitsOut::LsbPos => 0x1A,
            ClockBitsOut::LsbNeg => 0x1B,
        }
    }
}

impl vstd::std_specs::convert::FromSpecImpl<ClockBitsOut> for u8 {
    open spec fn obeys_from_spec() -> bool {
        true
    }

    open spec fn from_spec(value: ClockBitsOut) -> u8 {
        value.opcode()
    }
}

/// Modes for clocking bytes into the device, for
/// [`clock_data_in`](crate::MpsseCmdBuilder::clock_data_in).
#[derive(Debug, Copy, Clone, Eq, PartialEq, Structural)]
pub enum ClockDataIn {
    /// MSB first; the data line is sampled on the rising clock edge.
    MsbPos,
    /// MSB first; the data line is sampled on the falling clock edge.
    MsbNeg,
    /// LSB first; the data line is sampled on the rising clock edge.
    LsbPos,
    /// LSB first; the data line is sampled on the falling clock edge.
    LsbNeg,
}

impl ClockDataIn {
    /// The byte that the device reads as a command in this mode.
    pub open spec fn opcode(self) -> u8 {
        match self {
            ClockDataIn::MsbPos => 0x20,
            ClockDataIn::MsbNeg => 0x24,
            ClockDataIn::LsbPos => 0x28,
            ClockDataIn::LsbNeg => 0x2C,
        }
    }
}

impl From<ClockDataIn> for u8 {
    fn from(value: ClockDataIn) -> (byte: u8) {
        match value {
            ClockDataIn::MsbPos => 0x20,
            ClockDataIn::MsbNeg => 0x24,
            ClockDataIn::LsbPos => 0x28,
            ClockDataIn::LsbNeg => 0x2C,
        }
    }
}

impl vstd::std_specs::convert::FromSpecImpl<ClockDataIn> for u8 {
    open spec fn obeys_from_spec() -> bool {
        true
    }

    open spec fn from_spec(value: ClockDataIn) -> u8 {
        value.opcode()
    }
}

/// Modes for clocking bits into the device, for
/// [`clock_bits_in`](crate::MpsseCmdBuilder::clock_bits_in).
///
/// The device answers with a whole byte. MSB first, the bits are shifted up
/// from bit 0; LSB first, they are shifted down from bit 7. The bits that
/// were not clocked are unspecified.
#[derive(Debug, Copy, Clone, Eq, PartialEq, Structural)]
pub enum ClockBitsIn {
    /// MSB first; the data line is sampled on the rising clock edge.
    MsbPos,
    /// MSB first; the data line is sampled on the falling clock edge.
    MsbNeg,
    /// LSB first; the data line is sampled on the rising clock edge.
    LsbPos,
    /// LSB first; the data line is sampled on the falling clock edge.
    LsbNeg,
}

impl ClockBitsIn {
    /// The byte that the device reads as a command in this mode.
    pub open spec fn opcode(self) -> u8 {
        match self {
            ClockBitsIn::MsbPos => 0x22,
            ClockBitsIn::MsbNeg => 0x26,
            ClockBitsIn::LsbPos => 0x2A,
            ClockBitsIn::LsbNeg => 0x2E,
        }
    }
}

impl From<ClockBitsIn> for u8 {
    fn from(value: ClockBitsIn) -> (byte: u8) {
        match value {
            ClockBitsIn::MsbPos => 0x22,
            ClockBitsIn::MsbNeg => 0x26,
            ClockBitsIn::LsbPos => 0x2A,
            ClockBitsIn::LsbNeg => 0x2E,
        }
    }
}

impl vstd::std_specs::convert::FromSpecImpl<ClockBitsIn> for u8 {
    open spec fn obeys_from_spec() -> bool {
        true
    }

    open spec fn from_spec(value: ClockBitsIn) -> u8 {
        value.opcode()
    }
}

/// Modes for clocking bytes in and out at once, for
/// [`clock_data`](crate::MpsseCmdBuilder::clock_data).
#[derive(Debug, Copy, Clone, Eq, PartialEq, Structural)]
pub enum ClockData {
    /// MSB first, data in on the rising edge, data out on the falling edge.
    MsbPosIn,
    /// MSB first, data in on the falling edge, data out on the rising edge.
    MsbNegIn,
    /// LSB first, data in on the rising edge, data out on the falling edge.
    LsbPosIn,
    /// LSB first, data in on the falling edge, data out on the rising edge.
    LsbNegIn,
}

impl ClockData {
    /// The byte that the device reads as a command in this mode.
    pub open spec fn opcode(self) -> u8 {
        match self {
            ClockData::MsbPosIn => 0x31,
            ClockData::MsbNegIn => 0x34,
            ClockData::LsbPosIn => 0x39,
            ClockData::LsbNegIn => 0x3C,
        }
    }
}

impl From<ClockData> for u8 {
    fn from(value: ClockData) -> (byte: u8) {
        match value {
            ClockData::MsbPosIn => 0x31,
            ClockData::MsbNegIn => 0x34,
            ClockData::LsbPosIn => 0x39,
            ClockData::LsbNegIn => 0x3C,
        }
    }
}

impl vstd::std_specs::convert::FromSpecImpl<ClockData> for u8 {
    open spec fn obeys_from_spec() -> bool {
        true
    }

    open spec fn from_spec(value: ClockData) -> u8 {
        value.opcode()
    }
}

/// Modes for clocking bits in and out at once, for
/// [`clock_bits`](crate::MpsseCmdBuilder::clock_bits).
#[derive(Debug, Copy, Clone, Eq, PartialEq, Structural)]
pub enum ClockBits {
    /// MSB first, data in on the rising edge, data out on the falling edge.
    MsbPosIn,
    /// MSB first, data in on the falling edge, data out on the rising edge.
    MsbNegIn,
    /// LSB first, data in on the rising edge, data out on the falling edge.
    LsbPosIn,
    /// LSB first, data in on the falling edge, data out on the rising edge.
    LsbNegIn,
}

impl ClockBits {
    /// The byte that the device reads as a command in this mode.
    pub open spec fn opcode(self) -> u8 {
        match self {
            ClockBits::MsbPosIn => 0x33,
            ClockBits::MsbNegIn => 0x36,
            ClockBits::LsbPosIn => 0x3B,
            ClockBits::LsbNegIn => 0x3E,
        }
    }
}

impl From<ClockBits> for u8 {
    fn from(value: ClockBits) -> (byte: u8) {
        match value {
            ClockBits::MsbPosIn => 0x33,
            ClockBits::MsbNegIn => 0x36,
            ClockBits::LsbPosIn => 0x3B,
            ClockBits::LsbNegIn => 0x3E,
        }
    }
}

impl vstd::std_specs::convert::FromSpecImpl<ClockBits> for u8 {
    open spec fn obeys_from_spec() -> bool {
        true
    }

    open spec fn from_spec(value: ClockBits) -> u8 {
        value.opcode()
    }
}

/// Modes for clocking bits out on TMS, for
/// [`clock_tms_out`](crate::MpsseCmdBuilder::clock_tms_out).
#[derive(Debug, Copy, Clone, Eq, PartialEq, Structural)]
pub enum ClockTMSOut {
    /// LSB first, TMS changes on the rising edge.
    PosEdge,
    /// LSB first, TMS changes on the falling edge.
    NegEdge,
}

impl ClockTMSOut {
    /// The byte that the device reads as a command in this mode.
    pub open spec fn opcode(self) -> u8 {
        match self {
            ClockTMSOut::PosEdge => 0x4A,
            ClockTMSOut::NegEdge => 0x4B,
        }
    }
}

impl From<ClockTMSOut> for u8 {
    fn from(value: ClockTMSOut) -> (byte: u8) {
        match value {
            ClockTMSOut::PosEdge => 0x4A,
            ClockTMSOut::NegEdge => 0x4B,
        }
    }
}

impl vstd::std_specs::convert::FromSpecImpl<ClockTMSOut> for u8 {
    open spec fn obeys_from_spec() -> bool {
        true
    }

    open spec fn from_spec(value: ClockTMSOut) -> u8 {
        value.opcode()
    }
}

/// Modes for clocking bits out on TMS while reading TDO, for
/// [`clock_tms`](crate::MpsseCmdBuilder::clock_tms).
#[derive(Debug, Copy, Clone, Eq, PartialEq, Structural)]
pub enum ClockTMS {
    /// LSB first, TMS out on the rising edge, TDO in on the rising edge.
    PosTMSPosTDO,
    /// LSB first, TMS out on the rising edge, TDO in on the falling edge.
    PosTMSNegTDO,
    /// LSB first, TMS out on the falling edge, TDO in on the rising edge.
    NegTMSPosTDO,
    /// LSB first, TMS out on the falling edge, TDO in on the falling edge.
    NegTMSNegTDO,
}

impl ClockTMS {
    /// The byte that the device reads as a command in this mode.
    pub open spec fn opcode(self) -> u8 {
        match self {
            ClockTMS::PosTMSPosTDO => 0x6A,
            ClockTMS::PosTMSNegTDO => 0x6E,
            ClockTMS::NegTMSPosTDO => 0x6B,
            ClockTMS::NegTMSNegTDO => 0x6F,
        }
    }
}

impl From<ClockTMS> for u8 {
    fn from(value: ClockTMS) -> (byte: u8) {
        match value {
            ClockTMS::PosTMSPosTDO => 0x6A,
            ClockTMS::PosTMSNegTDO => 0x6E,
            ClockTMS::NegTMSPosTDO => 0x6B,
            ClockTMS::NegTMSNegTDO => 0x6F,
        }
    }
}

impl vstd::std_specs::convert::FromSpecImpl<ClockTMS> for u8 {
    open spec fn obeys_from_spec() -> bool {
        true
    }

    open spec fn from_spec(value: ClockTMS) -> u8 {
        value.opcode()
    }
}

} // verus!
