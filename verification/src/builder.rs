//! The dynamic builder: commands appended one call at a time to a growable
//! buffer, for sequences that are known only at run time.

use crate::command::{all_valid, widths, Command};
use crate::encoding;
use crate::encoding::{MAX_BITS, MAX_DATA_LEN, MAX_TMS_BITS};
use crate::ledger::{
    lemma_offset_step, lemma_offsets_monotonic, offset_of, total_after, ReadLedger,
};
use crate::mode::{
    ClockBits, ClockBitsIn, ClockBitsOut, ClockData, ClockDataIn, ClockDataOut, ClockTMS,
    ClockTMSOut,
};
use crate::opcode::MpsseCmd;
use std::ops::Range;
use vstd::prelude::*;

verus! {

/// FTDI Multi-Protocol Synchronous Serial Engine (MPSSE) command builder.
///
/// The first field is the command buffer: the bytes of the commands so far,
/// in the order of the calls. The builder also keeps a [`ReadLedger`], which
/// counts the response bytes that those commands will produce.
///
/// Each method takes the builder and hands it back, so that calls chain. A
/// method that reads comes in two forms: the plain one hands back the
/// builder alone; the one whose name ends in `_indexed` also hands back where
/// in the response the command's bytes will lie.
///
/// A request for zero bytes or bits appends nothing and declares nothing. A
/// request for more than the command can carry is refused by the method's
/// `requires`. Callers that cannot show the count to be in range test it
/// first, or go through [`try_command`](Self::try_command), which hands the
/// builder back untouched where the request cannot be met.
pub struct MpsseCmdBuilder(pub Vec<u8>, ReadLedger);

impl MpsseCmdBuilder {
    /// The command bytes so far: what the first field holds.
    pub closed spec fn bytes(&self) -> Seq<u8> {
        self.0@
    }

    /// The number of response bytes that the commands so far will produce.
    pub closed spec fn read_len(&self) -> nat {
        self.1@
    }

    /// Create a new command builder.
    pub fn new() -> (builder: MpsseCmdBuilder)
        ensures
            builder.bytes() == Seq::<u8>::empty(),
            builder.read_len() == 0,
    {
        MpsseCmdBuilder(Vec::new(), ReadLedger::new())
    }

    /// Create a new command builder from a vector. The vector's bytes come
    /// before everything that is appended; the ledger starts at zero.
    pub fn with_vec(vec: Vec<u8>) -> (builder: MpsseCmdBuilder)
        ensures
            builder.bytes() == vec@,
            builder.read_len() == 0,
    {
        MpsseCmdBuilder(vec, ReadLedger::new())
    }

    /// Get the MPSSE command as a slice.
    pub fn as_slice(&self) -> (slice: &[u8])
        ensures
            slice@ == self.bytes(),
    {
        self.0.as_slice()
    }

    /// The number of response bytes that the commands so far will produce:
    /// the size of the buffer to read the response into.
    pub fn read_length(&self) -> (len: usize)
        ensures
            len == self.read_len(),
    {
        self.1.total()
    }

    /// Set the MPSSE clock frequency from a divisor and, if `clkdiv` is
    /// given, switch the divide-by-5 prescaler on or off first. Only the low
    /// 16 bits of the divisor reach the device.
    pub fn set_clock(self, divisor: u32, clkdiv: Option<bool>) -> (builder: Self)
        ensures
            builder.bytes() == self.bytes() + encoding::set_clock(divisor, clkdiv),
            builder.read_len() == self.read_len(),
    {
        let mut builder = self;
        match clkdiv {
            Some(true) => builder.0.push(MpsseCmd::EnableClockDivide.into()),
            Some(false) => builder.0.push(MpsseCmd::DisableClockDivide.into()),
            None => {},
        };
        assert(divisor & 0xFF == divisor % 256 && (divisor >> 8) & 0xFF == (divisor / 256) % 256)
            by (bit_vector);
        builder.0.push(MpsseCmd::SetClockFrequency.into());
        builder.0.push((divisor & 0xFF) as u8);
        builder.0.push(((divisor >> 8) & 0xFF) as u8);
        assert(builder.0@ =~= self.0@ + encoding::set_clock(divisor, clkdiv));
        builder
    }

    /// Enable the MPSSE loopback state: TDI/DO is connected to TDO/DI inside
    /// the device.
    pub fn enable_loopback(self) -> (builder: Self)
        ensures
            builder.bytes() == self.bytes() + encoding::bare(
                MpsseCmd::EnableLoopback.opcode(),
            ),
            builder.read_len() == self.read_len(),
    {
        let mut builder = self;
        builder.0.push(MpsseCmd::EnableLoopback.into());
        builder
    }

    /// Disable the MPSSE loopback state.
    pub fn disable_loopback(self) -> (builder: Self)
        ensures
            builder.bytes() == self.bytes() + encoding::bare(
                MpsseCmd::DisableLoopback.opcode(),
            ),
            builder.read_len() == self.read_len(),
    {
        let mut builder = self;
        builder.0.push(MpsseCmd::DisableLoopback.into());
        builder
    }

    /// Disable 3 phase data clocking: data is set up for half a clock period
    /// and the clock is pulsed for half a period. This is the device's
    /// default. FTx232H devices only.
    pub fn disable_3phase_data_clocking(self) -> (builder: Self)
        ensures
            builder.bytes() == self.bytes() + encoding::bare(
                MpsseCmd::Disable3PhaseClocking.opcode(),
            ),
            builder.read_len() == self.read_len(),
    {
        let mut builder = self;
        builder.0.push(MpsseCmd::Disable3PhaseClocking.into());
        builder
    }

    /// Enable 3 phase data clocking: data is set up for half a clock period,
    /// the clock is pulsed for half a period, and data is held for half a
    /// period, as I2C needs. FTx232H devices only.
    pub fn enable_3phase_data_clocking(self) -> (builder: Self)
        ensures
            builder.bytes() == self.bytes() + encoding::bare(
                MpsseCmd::Enable3PhaseClocking.opcode(),
            ),
            builder.read_len() == self.read_len(),
    {
        let mut builder = self;
        builder.0.push(MpsseCmd::Enable3PhaseClocking.into());
        builder
    }

    /// Enable adaptive data clocking. FTx232H devices only.
    pub fn enable_adaptive_data_clocking(self) -> (builder: Self)
        ensures
            builder.bytes() == self.bytes() + encoding::bare(
                MpsseCmd::EnableAdaptiveClocking.opcode(),
            ),
            builder.read_len() == self.read_len(),
    {
        let mut builder = self;
        builder.0.push(MpsseCmd::EnableAdaptiveClocking.into());
        builder
    }

    /// Disable adaptive data clocking. FTx232H devices only.
    pub fn disable_adaptive_data_clocking(self) -> (builder: Self)
        ensures
            builder.bytes() == self.bytes() + encoding::bare(
                MpsseCmd::DisableAdaptiveClocking.opcode(),
            ),
            builder.read_len() == self.read_len(),
    {
        let mut builder = self;
        builder.0.push(MpsseCmd::DisableAdaptiveClocking.into());
        builder
    }

    /// Set the pin direction and state of the lower byte (0-7) GPIO pins.
    ///
    /// A bit of `state` set drives the pin high; a bit of `direction` set
    /// makes the pin an output. Both bytes are sent as they are.
    pub fn set_gpio_lower(self, state: u8, direction: u8) -> (builder: Self)
        ensures
            builder.bytes() == self.bytes() + encoding::set_pins(
                MpsseCmd::SetDataBitsLowbyte.opcode(),
                state,
                direction,
            ),
            builder.read_len() == self.read_len(),
    {
        let mut builder = self;
        builder.0.extend_from_slice(&[MpsseCmd::SetDataBitsLowbyte.into(), state, direction]);
        builder
    }

    /// Set the pin direction and state of the upper byte (8-15) GPIO pins.
    ///
    /// A bit of `state` set drives the pin high; a bit of `direction` set
    /// makes the pin an output. Both bytes are sent as they are.
    pub fn set_gpio_upper(self, state: u8, direction: u8) -> (builder: Self)
        ensures
            builder.bytes() == self.bytes() + encoding::set_pins(
                MpsseCmd::SetDataBitsHighbyte.opcode(),
                state,
                direction,
            ),
            builder.read_len() == self.read_len(),
    {
        let mut builder = self;
        builder.0.extend_from_slice(&[MpsseCmd::SetDataBitsHighbyte.into(), state, direction]);
        builder
    }

    /// Get the pin state of the lower byte (0-7) GPIO pins. The device
    /// answers with one byte.
    pub fn gpio_lower(self) -> (builder: Self)
        requires
            self.read_len() + 1 <= usize::MAX,
        ensures
            builder.bytes() == self.bytes() + encoding::bare(
                MpsseCmd::GetDataBitsLowbyte.opcode(),
            ),
            builder.read_len() == self.read_len() + 1,
    {
        let mut builder = self;
        builder.0.push(MpsseCmd::GetDataBitsLowbyte.into());
        let _ = builder.1.declare(1);
        builder
    }

    /// As [`gpio_lower`](Self::gpio_lower), and hands back the index of the
    /// answer in the response.
    pub fn gpio_lower_indexed(self) -> (out: (Self, usize))
        requires
            self.read_len() + 1 <= usize::MAX,
        ensures
            out.0.bytes() == self.bytes() + encoding::bare(
                MpsseCmd::GetDataBitsLowbyte.opcode(),
            ),
            out.0.read_len() == self.read_len() + 1,
            out.1 == self.read_len(),
    {
        let index: usize = self.read_length();
        (self.gpio_lower(), index)
    }

    /// Get the pin state of the upper byte (8-15) GPIO pins. The device
    /// answers with one byte.
    pub fn gpio_upper(self) -> (builder: Self)
        requires
            self.read_len() + 1 <= usize::MAX,
        ensures
            builder.bytes() == self.bytes() + encoding::bare(
                MpsseCmd::GetDataBitsHighbyte.opcode(),
            ),
            builder.read_len() == self.read_len() + 1,
    {
        let mut builder = self;
        builder.0.push(MpsseCmd::GetDataBitsHighbyte.into());
        let _ = builder.1.declare(1);
        builder
    }

    /// As [`gpio_upper`](Self::gpio_upper), and hands back the index of the
    /// answer in the response.
    pub fn gpio_upper_indexed(self) -> (out: (Self, usize))
        requires
            self.read_len() + 1 <= usize::MAX,
        ensures
            out.0.bytes() == self.bytes() + encoding::bare(
                MpsseCmd::GetDataBitsHighbyte.opcode(),
            ),
            out.0.read_len() == self.read_len() + 1,
            out.1 == self.read_len(),
    {
        let index: usize = self.read_length();
        (self.gpio_upper(), index)
    }

    /// Send the preceding commands' responses to the host immediately.
    pub fn send_immediate(self) -> (builder: Self)
        ensures
            builder.bytes() == self.bytes() + encoding::bare(
                MpsseCmd::SendImmediate.opcode(),
            ),
            builder.read_len() == self.read_len(),
    {
        let mut builder = self;
        builder.0.push(MpsseCmd::SendImmediate.into());
        builder
    }

    /// Make the controller wait until GPIOL1 or I/O1 is high before it runs
    /// further commands.
    pub fn wait_on_io_high(self) -> (builder: Self)
        ensures
            builder.bytes() == self.bytes() + encoding::bare(
                MpsseCmd::WaitOnIOHigh.opcode(),
            ),
            builder.read_len() == self.read_len(),
    {
        let mut builder = self;
        builder.0.push(MpsseCmd::WaitOnIOHigh.into());
        builder
    }

    /// Make the controller wait until GPIOL1 or I/O1 is low before it runs
    /// further commands.
    pub fn wait_on_io_low(self) -> (builder: Self)
        ensures
            builder.bytes() == self.bytes() + encoding::bare(
                MpsseCmd::WaitOnIOLow.opcode(),
            ),
            builder.read_len() == self.read_len(),
    {
        let mut builder = self;
        builder.0.push(MpsseCmd::WaitOnIOLow.into());
        builder
    }

    /// Clock data out: the bytes of `data` leave on TDI/DO, and nothing is
    /// read.
    ///
    /// Empty `data` appends nothing.
    pub fn clock_data_out(self, mode: ClockDataOut, data: &[u8]) -> (builder: Self)
        requires
            data@.len() <= MAX_DATA_LEN,
        ensures
            builder.bytes() == self.bytes() + encoding::data_out(mode.opcode(), data@),
            builder.read_len() == self.read_len(),
    {
        let len: usize = data.len();
        if len == 0 {
            return self;
        }
        let mut builder = self;
        let count = encoding::length_bytes(len);
        builder.0.extend_from_slice(&[mode.into(), count[0], count[1]]);
        builder.0.extend_from_slice(data);
        assert(builder.0@ =~= self.0@ + encoding::data_out(mode.opcode(), data@));
        builder
    }

    /// Clock data in: `len` bytes are read on TDO/DI, and nothing is sent.
    /// The device answers with `len` bytes.
    ///
    /// A `len` of zero appends nothing and declares nothing.
    pub fn clock_data_in(self, mode: ClockDataIn, len: usize) -> (builder: Self)
        requires
            len <= MAX_DATA_LEN,
            self.read_len() + len <= usize::MAX,
        ensures
            builder.bytes() == self.bytes() + encoding::data_in(mode.opcode(), len as nat),
            builder.read_len() == self.read_len() + len,
    {
        if len == 0 {
            return self;
        }
        let mut builder = self;
        let count = encoding::length_bytes(len);
        builder.0.extend_from_slice(&[mode.into(), count[0], count[1]]);
        let _ = builder.1.declare(len);
        assert(builder.0@ =~= self.0@ + encoding::data_in(mode.opcode(), len as nat));
        builder
    }

    /// As [`clock_data_in`](Self::clock_data_in), and hands back the range
    /// of the answer in the response.
    pub fn clock_data_in_indexed(self, mode: ClockDataIn, len: usize) -> (out: (
        Self,
        Range<usize>,
    ))
        requires
            len <= MAX_DATA_LEN,
            self.read_len() + len <= usize::MAX,
        ensures
            out.0.bytes() == self.bytes() + encoding::data_in(mode.opcode(), len as nat),
            out.0.read_len() == self.read_len() + len,
            out.1.start == self.read_len(),
            out.1.end == self.read_len() + len,
    {
        let start: usize = self.read_length();
        let builder = self.clock_data_in(mode, len);
        let end: usize = builder.read_length();
        (builder, start..end)
    }

    /// Clock data in and out simultaneously: the bytes of `data` leave on
    /// TDI/DO while as many are read on TDO/DI. The device answers with one
    /// byte for each byte sent.
    ///
    /// Empty `data` appends nothing and declares nothing.
    pub fn clock_data(self, mode: ClockData, data: &[u8]) -> (builder: Self)
        requires
            data@.len() <= MAX_DATA_LEN,
            self.read_len() + data@.len() <= usize::MAX,
        ensures
            builder.bytes() == self.bytes() + encoding::data_out(mode.opcode(), data@),
            builder.read_len() == self.read_len() + data@.len(),
    {
        let len: usize = data.len();
        if len == 0 {
            return self;
        }
        let mut builder = self;
        let count = encoding::length_bytes(len);
        builder.0.extend_from_slice(&[mode.into(), count[0], count[1]]);
        builder.0.extend_from_slice(data);
        let _ = builder.1.declare(len);
        assert(builder.0@ =~= self.0@ + encoding::data_out(mode.opcode(), data@));
        builder
    }

    /// As [`clock_data`](Self::clock_data), and hands back the range of the
    /// answer in the response.
    pub fn clock_data_indexed(self, mode: ClockData, data: &[u8]) -> (out: (
        Self,
        Range<usize>,
    ))
        requires
            data@.len() <= MAX_DATA_LEN,
            self.read_len() + data@.len() <= usize::MAX,
        ensures
            out.0.bytes() == self.bytes() + encoding::data_out(mode.opcode(), data@),
            out.0.read_len() == self.read_len() + data@.len(),
            out.1.start == self.read_len(),
            out.1.end == self.read_len() + data@.len(),
    {
        let start: usize = self.read_length();
        let builder = self.clock_data(mode, data);
        let end: usize = builder.read_length();
        (builder, start..end)
    }

    /// Clock data bits out: the `len` bits of `data` that the mode puts
    /// first leave on TDI/DO, and nothing is read.
    ///
    /// A `len` of zero appends nothing.
    pub fn clock_bits_out(self, mode: ClockBitsOut, data: u8, len: u8) -> (builder: Self)
        requires
            len <= MAX_BITS,
        ensures
            builder.bytes() == self.bytes() + encoding::bits_out(mode.opcode(), data, len),
            builder.read_len() == self.read_len(),
    {
        if len == 0 {
            return self;
        }
        let mut builder = self;
        builder.0.extend_from_slice(&[mode.into(), len - 1, data]);
        assert(builder.0@ =~= self.0@ + encoding::bits_out(mode.opcode(), data, len));
        builder
    }

    /// Clock data bits in: `len` bits are read on TDO/DI. The device answers
    /// with one byte, whatever `len` is; the bits of it that were not
    /// clocked are unspecified.
    ///
    /// A `len` of zero appends nothing and declares nothing.
    pub fn clock_bits_in(self, mode: ClockBitsIn, len: u8) -> (builder: Self)
        requires
            len <= MAX_BITS,
            self.read_len() + encoding::bits_width(len) <= usize::MAX,
        ensures
            builder.bytes() == self.bytes() + encoding::bits_in(mode.opcode(), len),
            builder.read_len() == self.read_len() + encoding::bits_width(len),
    {
        if len == 0 {
            return self;
        }
        let mut builder = self;
        builder.0.extend_from_slice(&[mode.into(), len - 1]);
        let _ = builder.1.declare(1);
        assert(builder.0@ =~= self.0@ + encoding::bits_in(mode.opcode(), len));
        builder
    }

    /// As [`clock_bits_in`](Self::clock_bits_in), and hands back the index
    /// of the answer in the response. With a `len` of zero there is no
    /// answer, and the index is that of whatever is read next.
    pub fn clock_bits_in_indexed(self, mode: ClockBitsIn, len: u8) -> (out: (Self, usize))
        requires
            len <= MAX_BITS,
            self.read_len() + encoding::bits_width(len) <= usize::MAX,
        ensures
            out.0.bytes() == self.bytes() + encoding::bits_in(mode.opcode(), len),
            out.0.read_len() == self.read_len() + encoding::bits_width(len),
            out.1 == self.read_len(),
    {
        let index: usize = self.read_length();
        (self.clock_bits_in(mode, len), index)
    }

    /// Clock data bits in and out simultaneously. The device answers with
    /// one byte, whatever `len` is.
    ///
    /// A `len` of zero appends nothing and declares nothing.
    pub fn clock_bits(self, mode: ClockBits, data: u8, len: u8) -> (builder: Self)
        requires
            len <= MAX_BITS,
            self.read_len() + encoding::bits_width(len) <= usize::MAX,
        ensures
            builder.bytes() == self.bytes() + encoding::bits_out(mode.opcode(), data, len),
            builder.read_len() == self.read_len() + encoding::bits_width(len),
    {
        if len == 0 {
            return self;
        }
        let mut builder = self;
        builder.0.extend_from_slice(&[mode.into(), len - 1, data]);
        let _ = builder.1.declare(1);
        assert(builder.0@ =~= self.0@ + encoding::bits_out(mode.opcode(), data, len));
        builder
    }

    /// As [`clock_bits`](Self::clock_bits), and hands back the index of the
    /// answer in the response. With a `len` of zero there is no answer, and
    /// the index is that of whatever is read next.
    pub fn clock_bits_indexed(self, mode: ClockBits, data: u8, len: u8) -> (out: (Self, usize))
        requires
            len <= MAX_BITS,
            self.read_len() + encoding::bits_width(len) <= usize::MAX,
        ensures
            out.0.bytes() == self.bytes() + encoding::bits_out(mode.opcode(), data, len),
            out.0.read_len() == self.read_len() + encoding::bits_width(len),
            out.1 == self.read_len(),
    {
        let index: usize = self.read_length();
        (self.clock_bits(mode, data, len), index)
    }

    /// Clock TMS bits out: the low `len` bits of `data` leave on TMS, bit 0
    /// first, while TDI is held at `tdi`. Nothing is read.
    ///
    /// The level of TDI travels in bit 7 of the data byte: where `tdi` is
    /// set, bit 7 is sent set, whatever `data` holds there.
    ///
    /// A `len` of zero appends nothing.
    pub fn clock_tms_out(
        self,
        mode: ClockTMSOut,
        data: u8,
        tdi: bool,
        len: u8,
    ) -> (builder: Self)
        requires
            len <= MAX_TMS_BITS,
        ensures
            builder.bytes() == self.bytes() + encoding::tms(mode.opcode(), data, tdi, len),
            builder.read_len() == self.read_len(),
    {
        if len == 0 {
            return self;
        }
        let mut builder = self;
        let mut byte: u8 = data;
        if tdi {
            byte |= 0x80;
        }
        builder.0.extend_from_slice(&[mode.into(), len - 1, byte]);
        assert(builder.0@ =~= self.0@ + encoding::tms(mode.opcode(), data, tdi, len));
        builder
    }

    /// Clock TMS bits out while clocking TDO bits in. The device answers
    /// with one byte, whatever `len` is.
    ///
    /// The level of TDI travels in bit 7 of the data byte, as in
    /// [`clock_tms_out`](Self::clock_tms_out).
    ///
    /// A `len` of zero appends nothing and declares nothing.
    pub fn clock_tms(self, mode: ClockTMS, data: u8, tdi: bool, len: u8) -> (builder: Self)
        requires
            len <= MAX_TMS_BITS,
            self.read_len() + encoding::bits_width(len) <= usize::MAX,
        ensures
            builder.bytes() == self.bytes() + encoding::tms(mode.opcode(), data, tdi, len),
            builder.read_len() == self.read_len() + encoding::bits_width(len),
    {
        if len == 0 {
            return self;
        }
        let mut builder = self;
        let mut byte: u8 = data;
        if tdi {
            byte |= 0x80;
        }
        builder.0.extend_from_slice(&[mode.into(), len - 1, byte]);
        let _ = builder.1.declare(1);
        assert(builder.0@ =~= self.0@ + encoding::tms(mode.opcode(), data, tdi, len));
        builder
    }

    /// As [`clock_tms`](Self::clock_tms), and hands back the index of the
    /// answer in the response. With a `len` of zero there is no answer, and
    /// the index is that of whatever is read next.
    pub fn clock_tms_indexed(self, mode: ClockTMS, data: u8, tdi: bool, len: u8) -> (out: (
        Self,
        usize,
    ))
        requires
            len <= MAX_TMS_BITS,
            self.read_len() + encoding::bits_width(len) <= usize::MAX,
        ensures
            out.0.bytes() == self.bytes() + encoding::tms(mode.opcode(), data, tdi, len),
            out.0.read_len() == self.read_len() + encoding::bits_width(len),
            out.1 == self.read_len(),
    {
        let index: usize = self.read_length();
        (self.clock_tms(mode, data, tdi, len), index)
    }

    /// Appends one command: what the method of the command's kind does.
    pub fn command(self, cmd: &Command) -> (builder: Self)
        requires
            cmd.valid(),
            self.read_len() + cmd.read_width() <= usize::MAX,
        ensures
            builder.bytes() == self.bytes() + cmd.encoding(),
            builder.read_len() == self.read_len() + cmd.read_width(),
    {
        match cmd {
            Command::EnableLoopback => self.enable_loopback(),
            Command::DisableLoopback => self.disable_loopback(),
            Command::Enable3PhaseDataClocking => self.enable_3phase_data_clocking(),
            Command::Disable3PhaseDataClocking => self.disable_3phase_data_clocking(),
            Command::EnableAdaptiveDataClocking => self.enable_adaptive_data_clocking(),
            Command::DisableAdaptiveDataClocking => self.disable_adaptive_data_clocking(),
            Command::SetGpioLower { state, direction } => self.set_gpio_lower(*state, *direction),
            Command::SetGpioUpper { state, direction } => self.set_gpio_upper(*state, *direction),
            Command::GpioLower => self.gpio_lower(),
            Command::GpioUpper => self.gpio_upper(),
            Command::SendImmediate => self.send_immediate(),
            Command::WaitOnIoHigh => self.wait_on_io_high(),
            Command::WaitOnIoLow => self.wait_on_io_low(),
            Command::SetClock { divisor, clkdiv } => self.set_clock(*divisor, *clkdiv),
            Command::ClockDataOut { mode, data } => self.clock_data_out(*mode, data),
            Command::ClockDataIn { mode, len } => self.clock_data_in(*mode, *len),
            Command::ClockData { mode, data } => self.clock_data(*mode, data),
            Command::ClockBitsOut { mode, data, len } => self.clock_bits_out(*mode, *data, *len),
            Command::ClockBitsIn { mode, len } => self.clock_bits_in(*mode, *len),
            Command::ClockBits { mode, data, len } => self.clock_bits(*mode, *data, *len),
            Command::ClockTmsOut { mode, data, tdi, len } => self.clock_tms_out(
                *mode,
                *data,
                *tdi,
                *len,
            ),
            Command::ClockTms { mode, data, tdi, len } => self.clock_tms(*mode, *data, *tdi, *len),
        }
    }

    /// Appends one command if it can be appended, and hands the builder back
    /// as it came if not: where the command asks for more than its kind can
    /// carry, and where the response would grow past `usize::MAX` bytes.
    pub fn try_command(self, cmd: &Command) -> (out: Result<Self, Self>)
        ensures
            out is Ok <==> cmd.valid() && self.read_len() + cmd.read_width() <= usize::MAX,
            out matches Ok(builder) ==> builder.bytes() == self.bytes() + cmd.encoding()
                && builder.read_len() == self.read_len() + cmd.read_width(),
            out matches Err(builder) ==> builder == self,
    {
        if !cmd.is_valid() {
            return Err(self);
        }
        match self.read_length().checked_add(cmd.response_len()) {
            Some(_) => Ok(self.command(cmd)),
            None => Err(self),
        }
    }

    /// Appends the commands of a list, first to last.
    pub fn commands(self, cmds: &[Command]) -> (builder: Self)
        requires
            all_valid(cmds@),
            total_after(self.read_len(), widths(cmds@)) <= usize::MAX,
        ensures
            builder.bytes() == appended(self.bytes(), cmds@),
            builder.read_len() == total_after(self.read_len(), widths(cmds@)),
    {
        let ghost start = self.read_len();
        let ghost prefix = self.bytes();
        let mut builder = self;
        let mut i: usize = 0;
        assert(appended(prefix, cmds@.take(0)) == prefix);
        assert(offset_of(start, widths(cmds@), 0) == start);
        while i < cmds.len()
            invariant
                i <= cmds@.len(),
                all_valid(cmds@),
                total_after(start, widths(cmds@)) <= usize::MAX,
                builder.bytes() == appended(prefix, cmds@.take(i as int)),
                builder.read_len() == offset_of(start, widths(cmds@), i as int),
            decreases cmds@.len() - i,
        {
            proof {
                assert(cmds@.take(i + 1) =~= cmds@.take(i as int).push(cmds@[i as int]));
                lemma_appended_push(prefix, cmds@.take(i as int), cmds@[i as int]);
                lemma_offset_step(start, widths(cmds@), i as int);
                lemma_offsets_monotonic(start, widths(cmds@), i + 1, cmds@.len() as int);
                assert(widths(cmds@).take(cmds@.len() as int) =~= widths(cmds@));
            }
            builder = builder.command(&cmds[i]);
            i = i + 1;
        }
        assert(cmds@.take(cmds@.len() as int) =~= cmds@);
        assert(widths(cmds@).take(cmds@.len() as int) =~= widths(cmds@));
        builder
    }
}

/// The command buffer that holds `bytes` after the commands of `cmds` have
/// been appended to it, first to last.
pub open spec fn appended(bytes: Seq<u8>, cmds: Seq<Command>) -> Seq<u8>
    decreases cmds.len(),
{
    if cmds.len() == 0 {
        bytes
    } else {
        appended(bytes + cmds[0].encoding(), cmds.drop_first())
    }
}

/// Appending one more command puts its bytes at the end.
pub proof fn lemma_appended_push(bytes: Seq<u8>, cmds: Seq<Command>, cmd: Command)
    ensures
        appended(bytes, cmds.push(cmd)) == appended(bytes, cmds) + cmd.encoding(),
    decreases cmds.len(),
{
    let pushed = cmds.push(cmd);
    if cmds.len() == 0 {
        assert(pushed.drop_first() =~= Seq::<Command>::empty());
        assert(appended(bytes + cmd.encoding(), pushed.drop_first()) == bytes + cmd.encoding());
    } else {
        assert(pushed.drop_first() =~= cmds.drop_first().push(cmd));
        lemma_appended_push(bytes + cmds[0].encoding(), cmds.drop_first(), cmd);
    }
}

} // verus!
