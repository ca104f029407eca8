//! A command as a value: its kind and its parameters.
//!
//! A list of such values is all that is needed to know how long the command
//! bytes will be, how long the response will be, and where in the response
//! each command's answer will lie, before a single byte is written.

use crate::encoding;
use crate::encoding::{MAX_BITS, MAX_DATA_LEN, MAX_TMS_BITS};
use crate::mode::{
    ClockBits, ClockBitsIn, ClockBitsOut, ClockData, ClockDataIn, ClockDataOut, ClockTMS,
    ClockTMSOut,
};
use crate::opcode::MpsseCmd;
use vstd::prelude::*;

verus! {

/// One command of the engine, with its parameters.
///
/// Each kind stands for the method of the same name of
/// [`MpsseCmdBuilder`](crate::MpsseCmdBuilder).
#[derive(Debug, Copy, Clone, PartialEq, Eq)]
#[allow(inconsistent_fields)]
pub enum Command<'a> {
    /// Connect TDI/DO to TDO/DI inside the device.
    EnableLoopback,
    /// Undo [`Command::EnableLoopback`].
    DisableLoopback,
    /// Switch 3 phase data clocking on.
    Enable3PhaseDataClocking,
    /// Switch 3 phase data clocking off.
    Disable3PhaseDataClocking,
    /// Switch adaptive clocking on.
    EnableAdaptiveDataClocking,
    /// Switch adaptive clocking off.
    DisableAdaptiveDataClocking,
    /// Set levels and directions of the lower GPIO byte.
    SetGpioLower { state: u8, direction: u8 },
    /// Set levels and directions of the upper GPIO byte.
    SetGpioUpper { state: u8, direction: u8 },
    /// Read the lower GPIO byte.
    GpioLower,
    /// Read the upper GPIO byte.
    GpioUpper,
    /// Send the responses so far to the host.
    SendImmediate,
    /// Wait until GPIOL1 is high.
    WaitOnIoHigh,
    /// Wait until GPIOL1 is low.
    WaitOnIoLow,
    /// Set the clock divisor and, if `clkdiv` is given, the prescaler.
    SetClock { divisor: u32, clkdiv: Option<bool> },
    /// Clock the bytes of `data` out.
    ClockDataOut { mode: ClockDataOut, data: &'a [u8] },
    /// Clock `len` bytes in.
    ClockDataIn { mode: ClockDataIn, len: usize },
    /// Clock the bytes of `data` out and as many in.
    ClockData { mode: ClockData, data: &'a [u8] },
    /// Clock `len` bits of `data` out.
    ClockBitsOut { mode: ClockBitsOut, data: u8, len: u8 },
    /// Clock `len` bits in.
    ClockBitsIn { mode: ClockBitsIn, len: u8 },
    /// Clock `len` bits of `data` out and as many in.
    ClockBits { mode: ClockBits, data: u8, len: u8 },
    /// Clock `len` bits of `data` out on TMS, holding TDI at `tdi`.
    ClockTmsOut { mode: ClockTMSOut, data: u8, tdi: bool, len: u8 },
    /// Clock `len` bits of `data` out on TMS, holding TDI at `tdi`, and read
    /// TDO.
    ClockTms { mode: ClockTMS, data: u8, tdi: bool, len: u8 },
}

impl<'a> Command<'a> {
    /// The number of bytes or bits asked for, for the kinds that have a
    /// count.
    pub open spec fn count(self) -> Option<nat> {
        match self {
            Command::ClockDataOut { mode, data } => Some(data@.len()),
            Command::ClockDataIn { mode, len } => Some(len as nat),
            Command::ClockData { mode, data } => Some(data@.len()),
            Command::ClockBitsOut { mode, data, len } => Some(len as nat),
            Command::ClockBitsIn { mode, len } => Some(len as nat),
            Command::ClockBits { mode, data, len } => Some(len as nat),
            Command::ClockTmsOut { mode, data, tdi, len } => Some(len as nat),
            Command::ClockTms { mode, data, tdi, len } => Some(len as nat),
            _ => None,
        }
    }

    /// The largest count that one command of this kind can carry.
    pub open spec fn limit(self) -> nat
        recommends
            self.count() is Some,
    {
        match self {
            Command::ClockDataOut { mode, data } => MAX_DATA_LEN as nat,
            Command::ClockDataIn { mode, len } => MAX_DATA_LEN as nat,
            Command::ClockData { mode, data } => MAX_DATA_LEN as nat,
            Command::ClockBitsOut { mode, data, len } => MAX_BITS as nat,
            Command::ClockBitsIn { mode, len } => MAX_BITS as nat,
            Command::ClockBits { mode, data, len } => MAX_BITS as nat,
            Command::ClockTmsOut { mode, data, tdi, len } => MAX_TMS_BITS as nat,
            Command::ClockTms { mode, data, tdi, len } => MAX_TMS_BITS as nat,
            _ => 0,
        }
    }

    /// Whether the device's format can carry the command: its count, if it
    /// has one, is no more than its kind's limit.
    pub open spec fn valid(self) -> bool {
        match self.count() {
            Some(count) => count <= self.limit(),
            None => true,
        }
    }

    /// The bytes that the device reads as this command.
    pub open spec fn encoding(self) -> Seq<u8> {
        match self {
            Command::EnableLoopback => encoding::bare(MpsseCmd::EnableLoopback.opcode()),
            Command::DisableLoopback => encoding::bare(MpsseCmd::DisableLoopback.opcode()),
            Command::Enable3PhaseDataClocking => encoding::bare(
                MpsseCmd::Enable3PhaseClocking.opcode(),
            ),
            Command::Disable3PhaseDataClocking => encoding::bare(
                MpsseCmd::Disable3PhaseClocking.opcode(),
            ),
            Command::EnableAdaptiveDataClocking => encoding::bare(
                MpsseCmd::EnableAdaptiveClocking.opcode(),
            ),
            Command::DisableAdaptiveDataClocking => encoding::bare(
                MpsseCmd::DisableAdaptiveClocking.opcode(),
            ),
            Command::SetGpioLower { state, direction } => encoding::set_pins(
                MpsseCmd::SetDataBitsLowbyte.opcode(),
                state,
                direction,
            ),
            Command::SetGpioUpper { state, direction } => encoding::set_pins(
                MpsseCmd::SetDataBitsHighbyte.opcode(),
                state,
                direction,
            ),
            Command::GpioLower => encoding::bare(MpsseCmd::GetDataBitsLowbyte.opcode()),
            Command::GpioUpper => encoding::bare(MpsseCmd::GetDataBitsHighbyte.opcode()),
            Command::SendImmediate => encoding::bare(MpsseCmd::SendImmediate.opcode()),
            Command::WaitOnIoHigh => encoding::bare(MpsseCmd::WaitOnIOHigh.opcode()),
            Command::WaitOnIoLow => encoding::bare(MpsseCmd::WaitOnIOLow.opcode()),
            Command::SetClock { divisor, clkdiv } => encoding::set_clock(divisor, clkdiv),
            Command::ClockDataOut { mode, data } => encoding::data_out(mode.opcode(), data@),
            Command::ClockDataIn { mode, len } => encoding::data_in(mode.opcode(), len as nat),
            Command::ClockData { mode, data } => encoding::data_out(mode.opcode(), data@),
            Command::ClockBitsOut { mode, data, len } => encoding::bits_out(
                mode.opcode(),
                data,
                len,
            ),
            Command::ClockBitsIn { mode, len } => encoding::bits_in(mode.opcode(), len),
            Command::ClockBits { mode, data, len } => encoding::bits_out(mode.opcode(), data, len),
            Command::ClockTmsOut { mode, data, tdi, len } => encoding::tms(
                mode.opcode(),
                data,
                tdi,
                len,
            ),
            Command::ClockTms { mode, data, tdi, len } => encoding::tms(
                mode.opcode(),
                data,
                tdi,
                len,
            ),
        }
    }

    /// The number of bytes with which the device answers this command.
    pub open spec fn read_width(self) -> nat {
        match self {
            Command::GpioLower => 1,
            Command::GpioUpper => 1,
            Command::ClockDataIn { mode, len } => len as nat,
            Command::ClockData { mode, data } => data@.len(),
            Command::ClockBitsIn { mode, len } => encoding::bits_width(len),
            Command::ClockBits { mode, data, len } => encoding::bits_width(len),
            Command::ClockTms { mode, data, tdi, len } => encoding::bits_width(len),
            _ => 0,
        }
    }

    /// Whether the device's format can carry the command.
    pub fn is_valid(&self) -> (valid: bool)
        ensures
            valid == self.valid(),
    {
        match self {
            Command::ClockDataOut { mode, data } => data.len() <= MAX_DATA_LEN,
            Command::ClockDataIn { mode, len } => *len <= MAX_DATA_LEN,
            Command::ClockData { mode, data } => data.len() <= MAX_DATA_LEN,
            Command::ClockBitsOut { mode, data, len } => *len <= MAX_BITS,
            Command::ClockBitsIn { mode, len } => *len <= MAX_BITS,
            Command::ClockBits { mode, data, len } => *len <= MAX_BITS,
            Command::ClockTmsOut { mode, data, tdi, len } => *len <= MAX_TMS_BITS,
            Command::ClockTms { mode, data, tdi, len } => *len <= MAX_TMS_BITS,
            _ => true,
        }
    }

    /// The number of bytes that the command takes in the command buffer.
    pub fn encoded_len(&self) -> (len: usize)
        requires
            self.valid(),
        ensures
            len == self.encoding().len(),
            len <= MAX_DATA_LEN + 3,
    {
        match self {
            Command::SetGpioLower { state, direction } => 3,
            Command::SetGpioUpper { state, direction } => 3,
            Command::SetClock { divisor, clkdiv } => match clkdiv {
                Some(_) => 4,
                None => 3,
            },
            Command::ClockDataOut { mode, data } => if data.len() == 0 {
                0
            } else {
                3 + data.len()
            },
            Command::ClockDataIn { mode, len } => if *len == 0 {
                0
            } else {
                3
            },
            Command::ClockData { mode, data } => if data.len() == 0 {
                0
            } else {
                3 + data.len()
            },
            Command::ClockBitsOut { mode, data, len } => if *len == 0 {
                0
            } else {
                3
            },
            Command::ClockBitsIn { mode, len } => if *len == 0 {
                0
            } else {
                2
            },
            Command::ClockBits { mode, data, len } => if *len == 0 {
                0
            } else {
                3
            },
            Command::ClockTmsOut { mode, data, tdi, len } => if *len == 0 {
                0
            } else {
                3
            },
            Command::ClockTms { mode, data, tdi, len } => if *len == 0 {
                0
            } else {
                3
            },
            _ => 1,
        }
    }

    /// The number of bytes with which the device answers the command.
    pub fn response_len(&self) -> (len: usize)
        requires
            self.valid(),
        ensures
            len == self.read_width(),
            len <= MAX_DATA_LEN,
    {
        match self {
            Command::GpioLower => 1,
            Command::GpioUpper => 1,
            Command::ClockDataIn { mode, len } => *len,
            Command::ClockData { mode, data } => data.len(),
            Command::ClockBitsIn { mode, len } => if *len == 0 {
                0
            } else {
                1
            },
            Command::ClockBits { mode, data, len } => if *len == 0 {
                0
            } else {
                1
            },
            Command::ClockTms { mode, data, tdi, len } => if *len == 0 {
                0
            } else {
                1
            },
            _ => 0,
        }
    }

    /// Writes the command's bytes into `buf` from index `at` on and hands
    /// back the index after the last byte written. The rest of `buf` stays
    /// as it was.
    pub fn write(&self, buf: &mut [u8], at: usize) -> (end: usize)
        requires
            self.valid(),
            at + self.encoding().len() <= old(buf)@.len(),
        ensures
            end == at + self.encoding().len(),
            final(buf)@ == overwritten(old(buf)@, at as int, self.encoding()),
    {
        proof {
            lemma_overwritten_empty(buf@, at as int);
        }
        match self {
            Command::EnableLoopback => write_bytes(buf, at, &[MpsseCmd::EnableLoopback.into()]),
            Command::DisableLoopback => write_bytes(buf, at, &[MpsseCmd::DisableLoopback.into()]),
            Command::Enable3PhaseDataClocking => write_bytes(
                buf,
                at,
                &[MpsseCmd::Enable3PhaseClocking.into()],
            ),
            Command::Disable3PhaseDataClocking => write_bytes(
                buf,
                at,
                &[MpsseCmd::Disable3PhaseClocking.into()],
            ),
            Command::EnableAdaptiveDataClocking => write_bytes(
                buf,
                at,
                &[MpsseCmd::EnableAdaptiveClocking.into()],
            ),
            Command::DisableAdaptiveDataClocking => write_bytes(
                buf,
                at,
                &[MpsseCmd::DisableAdaptiveClocking.into()],
            ),
            Command::SetGpioLower { state, direction } => write_bytes(
                buf,
                at,
                &[MpsseCmd::SetDataBitsLowbyte.into(), *state, *direction],
            ),
            Command::SetGpioUpper { state, direction } => write_bytes(
                buf,
                at,
                &[MpsseCmd::SetDataBitsHighbyte.into(), *state, *direction],
            ),
            Command::GpioLower => write_bytes(buf, at, &[MpsseCmd::GetDataBitsLowbyte.into()]),
            Command::GpioUpper => write_bytes(buf, at, &[MpsseCmd::GetDataBitsHighbyte.into()]),
            Command::SendImmediate => write_bytes(buf, at, &[MpsseCmd::SendImmediate.into()]),
            Command::WaitOnIoHigh => write_bytes(buf, at, &[MpsseCmd::WaitOnIOHigh.into()]),
            Command::WaitOnIoLow => write_bytes(buf, at, &[MpsseCmd::WaitOnIOLow.into()]),
            Command::SetClock { divisor, clkdiv } => {
                let divisor: u32 = *divisor;
                assert(divisor & 0xFF == divisor % 256 && (divisor >> 8) & 0xFF == (divisor / 256)
                    % 256) by (bit_vector);
                let low: u8 = (divisor & 0xFF) as u8;
                let high: u8 = ((divisor >> 8) & 0xFF) as u8;
                let set: u8 = MpsseCmd::SetClockFrequency.into();
                match clkdiv {
                    Some(true) => write_bytes(
                        buf,
                        at,
                        &[MpsseCmd::EnableClockDivide.into(), set, low, high],
                    ),
                    Some(false) => write_bytes(
                        buf,
                        at,
                        &[MpsseCmd::DisableClockDivide.into(), set, low, high],
                    ),
                    None => write_bytes(buf, at, &[set, low, high]),
                }
            },
            Command::ClockDataOut { mode, data } => write_data(buf, at, (*mode).into(), data),
            Command::ClockDataIn { mode, len } => {
                if *len == 0 {
                    at
                } else {
                    let count = encoding::length_bytes(*len);
                    write_bytes(buf, at, &[(*mode).into(), count[0], count[1]])
                }
            },
            Command::ClockData { mode, data } => write_data(buf, at, (*mode).into(), data),
            Command::ClockBitsOut { mode, data, len } => {
                if *len == 0 {
                    at
                } else {
                    write_bytes(buf, at, &[(*mode).into(), *len - 1, *data])
                }
            },
            Command::ClockBitsIn { mode, len } => {
                if *len == 0 {
                    at
                } else {
                    write_bytes(buf, at, &[(*mode).into(), *len - 1])
                }
            },
            Command::ClockBits { mode, data, len } => {
                if *len == 0 {
                    at
                } else {
                    write_bytes(buf, at, &[(*mode).into(), *len - 1, *data])
                }
            },
            Command::ClockTmsOut { mode, data, tdi, len } => {
                if *len == 0 {
                    at
                } else {
                    write_bytes(
                        buf,
                        at,
                        &[(*mode).into(), *len - 1, encoding::tms_byte(*data, *tdi)],
                    )
                }
            },
            Command::ClockTms { mode, data, tdi, len } => {
                if *len == 0 {
                    at
                } else {
                    write_bytes(
                        buf,
                        at,
                        &[(*mode).into(), *len - 1, encoding::tms_byte(*data, *tdi)],
                    )
                }
            },
        }
    }
}

/// Whether the device's format can carry every command of the list.
pub open spec fn all_valid(cmds: Seq<Command>) -> bool {
    forall|i: int| 0 <= i < cmds.len() ==> (#[trigger] cmds[i]).valid()
}

/// The response widths of a list, command by command.
pub open spec fn widths(cmds: Seq<Command>) -> Seq<nat> {
    Seq::new(cmds.len(), |i: int| cmds[i].read_width())
}

/// A command that asks for zero bytes or bits is no command: it has no bytes
/// and no answer.
pub proof fn lemma_zero_count(cmd: Command)
    requires
        cmd.count() == Some(0nat),
    ensures
        cmd.encoding() == Seq::<u8>::empty(),
        cmd.read_width() == 0,
{
}

/// A byte-granular command for `n` bytes, with `n` from 1 to 65536, carries
/// after its opcode the count `n - 1` in two bytes, low byte first; 65536
/// bytes travel as `0xFF 0xFF`.
pub proof fn lemma_byte_count(cmd: Command)
    requires
        cmd is ClockDataOut || cmd is ClockDataIn || cmd is ClockData,
        cmd.valid(),
        cmd.count() != Some(0nat),
    ensures
        cmd.count() matches Some(count) && cmd.encoding().len() >= 3 && cmd.encoding()[1] + 256
            * cmd.encoding()[2] == count - 1 && (count == MAX_DATA_LEN ==> cmd.encoding()[1] == 0xFF
            && cmd.encoding()[2] == 0xFF),
{
    encoding::lemma_length_field(cmd.count()->0 as int);
}

/// A command that asks for more than its kind can carry is not valid, and
/// neither is a list that holds it.
pub proof fn lemma_over_limit(cmds: Seq<Command>, index: int)
    requires
        0 <= index < cmds.len(),
        cmds[index].count() matches Some(count) && count > cmds[index].limit(),
    ensures
        !cmds[index].valid(),
        !all_valid(cmds),
{
}

/// `buf` with `bytes` laid over it from index `at` on.
pub open spec fn overwritten(buf: Seq<u8>, at: int, bytes: Seq<u8>) -> Seq<u8>
    recommends
        0 <= at,
        at + bytes.len() <= buf.len(),
{
    buf.subrange(0, at) + bytes + buf.subrange(at + bytes.len(), buf.len() as int)
}

/// Laying nothing over a buffer leaves it as it was.
pub proof fn lemma_overwritten_empty(buf: Seq<u8>, at: int)
    requires
        0 <= at <= buf.len(),
    ensures
        overwritten(buf, at, Seq::empty()) == buf,
{
    assert(overwritten(buf, at, Seq::empty()) =~= buf);
}

/// Copies `bytes` into `buf` from index `at` on and hands back the index
/// after the last byte written.
pub fn write_bytes(buf: &mut [u8], at: usize, bytes: &[u8]) -> (end: usize)
    requires
        at + bytes@.len() <= old(buf)@.len(),
    ensures
        end == at + bytes@.len(),
        final(buf)@ == overwritten(old(buf)@, at as int, bytes@),
{
    let capacity: usize = buf.len();
    let mut done: usize = 0;
    while done < bytes.len()
        invariant
            done <= bytes@.len(),
            at + bytes@.len() <= capacity,
            buf@.len() == capacity,
            buf@.len() == old(buf)@.len(),
            buf@ == overwritten(old(buf)@, at as int, bytes@.take(done as int)),
        decreases bytes@.len() - done,
    {
        buf[at + done] = bytes[done];
        done = done + 1;
    }
    assert(bytes@.take(done as int) =~= bytes@);
    at + done
}

/// Writes a byte-granular command that sends `data`: opcode, count, payload.
fn write_data(buf: &mut [u8], at: usize, opcode: u8, data: &[u8]) -> (end: usize)
    requires
        data@.len() <= MAX_DATA_LEN,
        at + encoding::data_out(opcode, data@).len() <= old(buf)@.len(),
    ensures
        end == at + encoding::data_out(opcode, data@).len(),
        final(buf)@ == overwritten(old(buf)@, at as int, encoding::data_out(opcode, data@)),
{
    if data.len() == 0 {
        proof {
            lemma_overwritten_empty(buf@, at as int);
        }
        return at;
    }
    let count = encoding::length_bytes(data.len());
    let payload: usize = write_bytes(buf, at, &[opcode, count[0], count[1]]);
    let end: usize = write_bytes(buf, payload, data);
    assert(buf@ =~= overwritten(old(buf)@, at as int, encoding::data_out(opcode, data@)));
    end
}

} // verus!
