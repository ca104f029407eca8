//! The wire grammar: what each command looks like as bytes.
//!
//! Every command is an opcode, then its parameter bytes, then its payload.
//! A count of `n` units travels as `n - 1`, because the device has no use
//! for a count of zero. A request for zero units is no command at all: it
//! encodes to the empty sequence.

use crate::opcode::MpsseCmd;
use vstd::prelude::*;

verus! {

/// Most bytes that one byte-granular command can move.
pub const MAX_DATA_LEN: usize = 65536;

/// Most bits that one bit-granular command can move.
pub const MAX_BITS: u8 = 8;

/// Most bits that one TMS command can move. Bit 7 of its data byte carries
/// the level of TDI, so seven are left.
pub const MAX_TMS_BITS: u8 = 7;

/// The two bytes that carry a byte count of `len`: `len - 1`, low byte first.
pub open spec fn length_field(len: int) -> Seq<u8>
    recommends
        1 <= len <= MAX_DATA_LEN,
{
    seq![((len - 1) % 256) as u8, ((len - 1) / 256) as u8]
}

/// A command that is its opcode and nothing else.
pub open spec fn bare(opcode: u8) -> Seq<u8> {
    seq![opcode]
}

/// Setting one byte of pins: opcode, levels, directions.
pub open spec fn set_pins(opcode: u8, state: u8, direction: u8) -> Seq<u8> {
    seq![opcode, state, direction]
}

/// The prescaler command that goes before a divisor, if any.
pub open spec fn clock_divide(clkdiv: Option<bool>) -> Seq<u8> {
    match clkdiv {
        Some(true) => seq![MpsseCmd::EnableClockDivide.opcode()],
        Some(false) => seq![MpsseCmd::DisableClockDivide.opcode()],
        None => Seq::empty(),
    }
}

/// Setting the clock: the prescaler command, if any, then the opcode and
/// the low 16 bits of the divisor, low byte first. The device takes no more
/// than 16 bits.
pub open spec fn set_clock(divisor: u32, clkdiv: Option<bool>) -> Seq<u8> {
    clock_divide(clkdiv) + seq![
        MpsseCmd::SetClockFrequency.opcode(),
        (divisor % 256) as u8,
        ((divisor / 256) % 256) as u8,
    ]
}

/// Clocking bytes out, with or without reading: opcode, count, payload.
pub open spec fn data_out(opcode: u8, data: Seq<u8>) -> Seq<u8>
    recommends
        data.len() <= MAX_DATA_LEN,
{
    if data.len() == 0 {
        Seq::empty()
    } else {
        seq![opcode] + length_field(data.len() as int) + data
    }
}

/// Clocking `len` bytes in: opcode and count.
pub open spec fn data_in(opcode: u8, len: nat) -> Seq<u8>
    recommends
        len <= MAX_DATA_LEN,
{
    if len == 0 {
        Seq::empty()
    } else {
        seq![opcode] + length_field(len as int)
    }
}

/// Clocking `len` bits of `data` out, with or without reading: opcode,
/// count, data byte.
pub open spec fn bits_out(opcode: u8, data: u8, len: u8) -> Seq<u8>
    recommends
        len <= MAX_BITS,
{
    if len == 0 {
        Seq::empty()
    } else {
        seq![opcode, (len - 1) as u8, data]
    }
}

/// Clocking `len` bits in: opcode and count.
pub open spec fn bits_in(opcode: u8, len: u8) -> Seq<u8>
    recommends
        len <= MAX_BITS,
{
    if len == 0 {
        Seq::empty()
    } else {
        seq![opcode, (len - 1) as u8]
    }
}

/// The data byte of a TMS command: the TMS bits, with bit 7 set where TDI
/// is to be held high.
pub open spec fn tms_data(data: u8, tdi: bool) -> u8 {
    if tdi {
        data | 0x80
    } else {
        data
    }
}

/// Clocking `len` bits out on TMS, with or without reading TDO: opcode,
/// count, data byte.
pub open spec fn tms(opcode: u8, data: u8, tdi: bool, len: u8) -> Seq<u8>
    recommends
        len <= MAX_TMS_BITS,
{
    if len == 0 {
        Seq::empty()
    } else {
        seq![opcode, (len - 1) as u8, tms_data(data, tdi)]
    }
}

/// The number of response bytes to a bit-granular or TMS command that
/// reads: one byte however many bits were asked for, and none where none
/// were.
pub open spec fn bits_width(len: u8) -> nat {
    if len == 0 {
        0
    } else {
        1
    }
}

/// The count bytes of a byte-granular command, as the device wants them.
pub fn length_bytes(len: usize) -> (bytes: [u8; 2])
    requires
        1 <= len <= MAX_DATA_LEN,
    ensures
        bytes@ == length_field(len as int),
{
    let n: usize = len - 1;
    assert(n & 0xFF == n % 256 && (n >> 8) & 0xFF == n / 256) by (bit_vector)
        requires
            n < 65536,
    ;
    let bytes: [u8; 2] = [(n & 0xFF) as u8, ((n >> 8) & 0xFF) as u8];
    assert(bytes@ =~= length_field(len as int));
    bytes
}

/// The data byte of a TMS command.
pub fn tms_byte(data: u8, tdi: bool) -> (byte: u8)
    ensures
        byte == tms_data(data, tdi),
{
    if tdi {
        data | 0x80
    } else {
        data
    }
}

/// The count of a byte-granular command is its length less one, low byte
/// first, in two bytes; the largest length fills both.
pub proof fn lemma_length_field(len: int)
    requires
        1 <= len <= MAX_DATA_LEN,
    ensures
        length_field(len).len() == 2,
        length_field(len)[0] + 256 * length_field(len)[1] == len - 1,
        len == MAX_DATA_LEN ==> length_field(len) == seq![0xFFu8, 0xFFu8],
{
    if len == MAX_DATA_LEN {
        assert(length_field(len) =~= seq![0xFFu8, 0xFFu8]);
    }
}

/// A TMS command that holds TDI high sends bit 7 set, whatever bit 7 of the
/// TMS bits was, and leaves the other bits alone; one that holds TDI low
/// sends the TMS bits as they came.
pub proof fn lemma_tms_data(data: u8, tdi: bool)
    ensures
        tdi ==> tms_data(data, tdi) & 0x80 == 0x80,
        tdi ==> tms_data(data, tdi) & 0x7F == data & 0x7F,
        !tdi ==> tms_data(data, tdi) == data,
{
    assert((data | 0x80) & 0x80 == 0x80 && (data | 0x80) & 0x7F == data & 0x7F) by (bit_vector);
}

} // verus!
