//! Opcodes of the commands that carry no clocking mode.

use vstd::prelude::*;

verus! {

/// MPSSE opcodes.
///
/// Data clocking commands have their opcodes in the mode enums of
/// [`crate::mode`]; this enum holds the rest.
#[derive(Debug, Copy, Clone, Eq, PartialEq, Structural)]
#[non_exhaustive]
pub enum MpsseCmd {
    /// Set the state and direction of the lower GPIO byte.
    SetDataBitsLowbyte,
    /// Read the state of the lower GPIO byte.
    GetDataBitsLowbyte,
    /// Set the state and direction of the upper GPIO byte.
    SetDataBitsHighbyte,
    /// Read the state of the upper GPIO byte.
    GetDataBitsHighbyte,
    /// Connect TDI/DO to TDO/DI inside the device.
    EnableLoopback,
    /// Undo [`MpsseCmd::EnableLoopback`].
    DisableLoopback,
    /// Set the clock divisor.
    SetClockFrequency,
    /// Flush the device's response buffer to the host.
    SendImmediate,
    /// Wait until GPIOL1 is high.
    WaitOnIOHigh,
    /// Wait until GPIOL1 is low.
    WaitOnIOLow,
    /// Switch the divide-by-5 clock prescaler off.
    DisableClockDivide,
    /// Switch the divide-by-5 clock prescaler on.
    EnableClockDivide,
    /// Switch 3 phase data clocking on.
    Enable3PhaseClocking,
    /// Switch 3 phase data clocking off.
    Disable3PhaseClocking,
    /// Switch adaptive clocking on.
    EnableAdaptiveClocking,
    /// Switch adaptive clocking off.
    DisableAdaptiveClocking,
}

impl MpsseCmd {
    /// The byte that the device reads as this command.
    pub open spec fn opcode(self) -> u8 {
        match self {
            MpsseCmd::SetDataBitsLowbyte => 0x80,
            MpsseCmd::GetDataBitsLowbyte => 0x81,
            MpsseCmd::SetDataBitsHighbyte => 0x82,
            MpsseCmd::GetDataBitsHighbyte => 0x83,
            MpsseCmd::EnableLoopback => 0x84,
            MpsseCmd::DisableLoopback => 0x85,
            MpsseCmd::SetClockFrequency => 0x86,
            MpsseCmd::SendImmediate => 0x87,
            MpsseCmd::WaitOnIOHigh => 0x88,
            MpsseCmd::WaitOnIOLow => 0x89,
            MpsseCmd::DisableClockDivide => 0x8A,
            MpsseCmd::EnableClockDivide => 0x8B,
            MpsseCmd::Enable3PhaseClocking => 0x8C,
            MpsseCmd::Disable3PhaseClocking => 0x8D,
            MpsseCmd::EnableAdaptiveClocking => 0x96,
            MpsseCmd::DisableAdaptiveClocking => 0x97,
        }
    }
}

impl From<MpsseCmd> for u8 {
    fn from(value: MpsseCmd) -> (byte: u8) {
        match value {
            MpsseCmd::SetDataBitsLowbyte => 0x80,
            MpsseCmd::GetDataBitsLowbyte => 0x81,
            MpsseCmd::SetDataBitsHighbyte => 0x82,
            MpsseCmd::GetDataBitsHighbyte => 0x83,
            MpsseCmd::EnableLoopback => 0x84,
            MpsseCmd::DisableLoopback => 0x85,
            MpsseCmd::SetClockFrequency => 0x86,
            MpsseCmd::SendImmediate => 0x87,
            MpsseCmd::WaitOnIOHigh => 0x88,
            MpsseCmd::WaitOnIOLow => 0x89,
            MpsseCmd::DisableClockDivide => 0x8A,
            MpsseCmd::EnableClockDivide => 0x8B,
            MpsseCmd::Enable3PhaseClocking => 0x8C,
            MpsseCmd::Disable3PhaseClocking => 0x8D,
            MpsseCmd::EnableAdaptiveClocking => 0x96,
            MpsseCmd::DisableAdaptiveClocking => 0x97,
        }
    }
}

impl vstd::std_specs::convert::FromSpecImpl<MpsseCmd> for u8 {
    open spec fn obeys_from_spec() -> bool {
        true
    }

    open spec fn from_spec(value: MpsseCmd) -> u8 {
        value.opcode()
    }
}

} // verus!
