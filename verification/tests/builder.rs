use ftdi_mpsse::{
    ClockBits, ClockBitsIn, ClockBitsOut, ClockData, ClockDataIn, ClockDataOut, ClockTMS,
    ClockTMSOut, MpsseCmdBuilder,
};

#[test]
fn new_builder_is_empty() {
    let builder = MpsseCmdBuilder::new();
    assert_eq!(builder.as_slice(), &[] as &[u8]);
    assert_eq!(builder.read_length(), 0);
    assert!(builder.0.is_empty());
}

#[test]
fn with_vec_keeps_the_prefix() {
    let builder = MpsseCmdBuilder::with_vec(vec![0xAA, 0xBB]).send_immediate();
    assert_eq!(builder.as_slice(), &[0xAA, 0xBB, 0x87]);
    assert_eq!(builder.read_length(), 0);
}

#[test]
fn first_field_is_the_buffer() {
    let builder = MpsseCmdBuilder::new().enable_loopback().disable_loopback();
    assert_eq!(builder.0, vec![0x84, 0x85]);
}

#[test]
fn gpio_then_send_immediate() {
    let builder = MpsseCmdBuilder::new()
        .set_gpio_lower(0xFF, 0xFF)
        .set_gpio_lower(0x00, 0xFF)
        .send_immediate();
    assert_eq!(
        builder.as_slice(),
        &[0x80, 0xFF, 0xFF, 0x80, 0x00, 0xFF, 0x87]
    );
    assert_eq!(builder.read_length(), 0);
}

#[test]
fn clock_data_in_first_command() {
    let (builder, range) =
        MpsseCmdBuilder::new().clock_data_in_indexed(ClockDataIn::MsbPos, 3);
    assert_eq!(builder.as_slice(), &[0x20, 0x02, 0x00]);
    assert_eq!(range, 0..3);
    assert_eq!(builder.read_length(), 3);
}

#[test]
fn clock_bits_out_four_bits() {
    let builder = MpsseCmdBuilder::new().clock_bits_out(ClockBitsOut::MsbPos, 0b1010, 4);
    assert_eq!(builder.as_slice(), &[0x12, 0x03, 0x0A]);
}

#[test]
fn single_opcode_commands() {
    assert_eq!(MpsseCmdBuilder::new().enable_loopback().as_slice(), &[0x84]);
    assert_eq!(MpsseCmdBuilder::new().disable_loopback().as_slice(), &[0x85]);
    assert_eq!(
        MpsseCmdBuilder::new().enable_3phase_data_clocking().as_slice(),
        &[0x8C]
    );
    assert_eq!(
        MpsseCmdBuilder::new().disable_3phase_data_clocking().as_slice(),
        &[0x8D]
    );
    assert_eq!(
        MpsseCmdBuilder::new().enable_adaptive_data_clocking().as_slice(),
        &[0x96]
    );
    assert_eq!(
        MpsseCmdBuilder::new().disable_adaptive_data_clocking().as_slice(),
        &[0x97]
    );
    assert_eq!(MpsseCmdBuilder::new().send_immediate().as_slice(), &[0x87]);
    assert_eq!(MpsseCmdBuilder::new().wait_on_io_high().as_slice(), &[0x88]);
    assert_eq!(MpsseCmdBuilder::new().wait_on_io_low().as_slice(), &[0x89]);
}

#[test]
fn single_opcode_commands_declare_nothing() {
    let builder = MpsseCmdBuilder::new()
        .enable_loopback()
        .disable_loopback()
        .enable_3phase_data_clocking()
        .disable_3phase_data_clocking()
        .enable_adaptive_data_clocking()
        .disable_adaptive_data_clocking()
        .send_immediate()
        .wait_on_io_high()
        .wait_on_io_low()
        .set_gpio_lower(1, 2)
        .set_gpio_upper(3, 4)
        .set_clock(5, Some(true));
    assert_eq!(builder.read_length(), 0);
    assert_eq!(builder.as_slice().len(), 9 + 3 + 3 + 4);
}

#[test]
fn set_gpio_sends_both_bytes_verbatim() {
    assert_eq!(
        MpsseCmdBuilder::new().set_gpio_lower(0x12, 0x34).as_slice(),
        &[0x80, 0x12, 0x34]
    );
    assert_eq!(
        MpsseCmdBuilder::new().set_gpio_upper(0x00, 0x00).as_slice(),
        &[0x82, 0x00, 0x00]
    );
    assert_eq!(
        MpsseCmdBuilder::new().set_gpio_upper(0xFF, 0x0F).as_slice(),
        &[0x82, 0xFF, 0x0F]
    );
}

#[test]
fn gpio_reads_declare_one_byte_each() {
    let builder = MpsseCmdBuilder::new().gpio_lower().gpio_upper();
    assert_eq!(builder.as_slice(), &[0x81, 0x83]);
    assert_eq!(builder.read_length(), 2);
}

#[test]
fn gpio_reads_indexed() {
    let (builder, lower) = MpsseCmdBuilder::new().gpio_lower_indexed();
    let (builder, upper) = builder.gpio_upper_indexed();
    assert_eq!(lower, 0);
    assert_eq!(upper, 1);
    assert_eq!(builder.as_slice(), &[0x81, 0x83]);
    assert_eq!(builder.read_length(), 2);
}

#[test]
fn set_clock_without_divider() {
    assert_eq!(
        MpsseCmdBuilder::new().set_clock(9, None).as_slice(),
        &[0x86, 0x09, 0x00]
    );
}

#[test]
fn set_clock_with_divider_on() {
    assert_eq!(
        MpsseCmdBuilder::new().set_clock(0x1234, Some(true)).as_slice(),
        &[0x8B, 0x86, 0x34, 0x12]
    );
}

#[test]
fn set_clock_with_divider_off() {
    assert_eq!(
        MpsseCmdBuilder::new().set_clock(9, Some(false)).as_slice(),
        &[0x8A, 0x86, 0x09, 0x00]
    );
}

#[test]
fn set_clock_sends_the_low_16_bits_only() {
    assert_eq!(
        MpsseCmdBuilder::new().set_clock(0xABCD_1234, None).as_slice(),
        &[0x86, 0x34, 0x12]
    );
    assert_eq!(
        MpsseCmdBuilder::new().set_clock(0xFFFF_FFFF, None).as_slice(),
        &[0x86, 0xFF, 0xFF]
    );
    assert_eq!(
        MpsseCmdBuilder::new().set_clock(0x0001_0000, None).as_slice(),
        &[0x86, 0x00, 0x00]
    );
}

#[test]
fn clock_data_out_carries_the_payload() {
    let builder = MpsseCmdBuilder::new().clock_data_out(ClockDataOut::MsbNeg, &[0x12, 0x34, 0x56]);
    assert_eq!(builder.as_slice(), &[0x11, 0x02, 0x00, 0x12, 0x34, 0x56]);
    assert_eq!(builder.read_length(), 0);
}

#[test]
fn clock_data_out_one_byte() {
    let builder = MpsseCmdBuilder::new().clock_data_out(ClockDataOut::LsbPos, &[0xA5]);
    assert_eq!(builder.as_slice(), &[0x18, 0x00, 0x00, 0xA5]);
}

#[test]
fn clock_data_out_length_field_is_little_endian() {
    let data = vec![0x5Au8; 0x0203];
    let builder = MpsseCmdBuilder::new().clock_data_out(ClockDataOut::MsbPos, &data);
    let bytes = builder.as_slice();
    assert_eq!(bytes.len(), 3 + 0x0203);
    assert_eq!(&bytes[..3], &[0x10, 0x02, 0x02]);
    assert_eq!(&bytes[3..], data.as_slice());
}

#[test]
fn clock_data_out_largest_length() {
    let data = vec![0u8; 65536];
    let builder = MpsseCmdBuilder::new().clock_data_out(ClockDataOut::LsbNeg, &data);
    let bytes = builder.as_slice();
    assert_eq!(bytes.len(), 3 + 65536);
    assert_eq!(&bytes[..3], &[0x19, 0xFF, 0xFF]);
}

#[test]
fn clock_data_in_lengths() {
    assert_eq!(
        MpsseCmdBuilder::new().clock_data_in(ClockDataIn::MsbNeg, 1).as_slice(),
        &[0x24, 0x00, 0x00]
    );
    assert_eq!(
        MpsseCmdBuilder::new().clock_data_in(ClockDataIn::LsbPos, 256).as_slice(),
        &[0x28, 0xFF, 0x00]
    );
    assert_eq!(
        MpsseCmdBuilder::new().clock_data_in(ClockDataIn::LsbNeg, 257).as_slice(),
        &[0x2C, 0x00, 0x01]
    );
    assert_eq!(
        MpsseCmdBuilder::new().clock_data_in(ClockDataIn::MsbPos, 65535).as_slice(),
        &[0x20, 0xFE, 0xFF]
    );
}

#[test]
fn clock_data_in_largest_length() {
    let (builder, range) =
        MpsseCmdBuilder::new().clock_data_in_indexed(ClockDataIn::MsbPos, 65536);
    assert_eq!(builder.as_slice(), &[0x20, 0xFF, 0xFF]);
    assert_eq!(range, 0..65536);
    assert_eq!(builder.read_length(), 65536);
}

#[test]
fn clock_data_every_length_field() {
    for len in 1usize..=65536 {
        let builder = MpsseCmdBuilder::new().clock_data_in(ClockDataIn::MsbPos, len);
        let bytes = builder.as_slice();
        assert_eq!(bytes.len(), 3);
        assert_eq!(bytes[1] as usize + 256 * bytes[2] as usize, len - 1);
        assert_eq!(builder.read_length(), len);
    }
}

#[test]
fn clock_data_duplex() {
    let (builder, range) =
        MpsseCmdBuilder::new().clock_data_indexed(ClockData::MsbPosIn, &[0x12, 0x34, 0x56]);
    assert_eq!(builder.as_slice(), &[0x31, 0x02, 0x00, 0x12, 0x34, 0x56]);
    assert_eq!(range, 0..3);
    assert_eq!(builder.read_length(), 3);
}

#[test]
fn clock_data_duplex_largest_length() {
    let data = vec![0xFFu8; 65536];
    let builder = MpsseCmdBuilder::new().clock_data(ClockData::LsbNegIn, &data);
    let bytes = builder.as_slice();
    assert_eq!(&bytes[..3], &[0x3C, 0xFF, 0xFF]);
    assert_eq!(bytes.len(), 3 + 65536);
    assert_eq!(builder.read_length(), 65536);
}

#[test]
fn zero_length_data_out_is_a_no_op() {
    let builder = MpsseCmdBuilder::new().send_immediate();
    let builder = builder.clock_data_out(ClockDataOut::MsbPos, &[]);
    assert_eq!(builder.as_slice(), &[0x87]);
    assert_eq!(builder.read_length(), 0);
}

#[test]
fn zero_length_data_in_is_a_no_op() {
    let (builder, first) = MpsseCmdBuilder::new().gpio_lower_indexed();
    let (builder, range) = builder.clock_data_in_indexed(ClockDataIn::MsbPos, 0);
    assert_eq!(first, 0);
    assert_eq!(builder.as_slice(), &[0x81]);
    assert_eq!(range, 1..1);
    assert_eq!(builder.read_length(), 1);
}

#[test]
fn zero_length_duplex_is_a_no_op() {
    let (builder, range) = MpsseCmdBuilder::new().clock_data_indexed(ClockData::MsbPosIn, &[]);
    assert_eq!(builder.as_slice(), &[] as &[u8]);
    assert_eq!(range, 0..0);
    assert_eq!(builder.read_length(), 0);
}

#[test]
fn zero_length_bits_are_no_ops() {
    let builder = MpsseCmdBuilder::new()
        .clock_bits_out(ClockBitsOut::MsbPos, 0xFF, 0)
        .clock_bits_in(ClockBitsIn::MsbPos, 0)
        .clock_bits(ClockBits::MsbPosIn, 0xFF, 0);
    assert_eq!(builder.as_slice(), &[] as &[u8]);
    assert_eq!(builder.read_length(), 0);
}

#[test]
fn zero_length_tms_are_no_ops() {
    let builder = MpsseCmdBuilder::new()
        .clock_tms_out(ClockTMSOut::PosEdge, 0xFF, true, 0)
        .clock_tms(ClockTMS::PosTMSPosTDO, 0xFF, true, 0);
    assert_eq!(builder.as_slice(), &[] as &[u8]);
    assert_eq!(builder.read_length(), 0);
}

#[test]
fn zero_length_indexed_bits_hand_back_the_next_index() {
    let (builder, first) = MpsseCmdBuilder::new().gpio_upper_indexed();
    let (builder, none) = builder.clock_bits_in_indexed(ClockBitsIn::LsbPos, 0);
    let (builder, none_too) = builder.clock_bits_indexed(ClockBits::LsbPosIn, 0x55, 0);
    let (builder, none_again) = builder.clock_tms_indexed(ClockTMS::NegTMSNegTDO, 0x55, false, 0);
    let (builder, next) = builder.gpio_lower_indexed();
    assert_eq!(first, 0);
    assert_eq!(none, 1);
    assert_eq!(none_too, 1);
    assert_eq!(none_again, 1);
    assert_eq!(next, 1);
    assert_eq!(builder.as_slice(), &[0x83, 0x81]);
    assert_eq!(builder.read_length(), 2);
}

#[test]
fn clock_bits_out_counts() {
    assert_eq!(
        MpsseCmdBuilder::new().clock_bits_out(ClockBitsOut::MsbNeg, 0x81, 1).as_slice(),
        &[0x13, 0x00, 0x81]
    );
    assert_eq!(
        MpsseCmdBuilder::new().clock_bits_out(ClockBitsOut::LsbPos, 0x81, 8).as_slice(),
        &[0x1A, 0x07, 0x81]
    );
}

#[test]
fn clock_bits_in_is_two_bytes_and_one_answer() {
    let (builder, index) = MpsseCmdBuilder::new().clock_bits_in_indexed(ClockBitsIn::MsbNeg, 3);
    assert_eq!(builder.as_slice(), &[0x26, 0x02]);
    assert_eq!(index, 0);
    assert_eq!(builder.read_length(), 1);
    let builder = builder.clock_bits_in(ClockBitsIn::LsbNeg, 8);
    assert_eq!(builder.as_slice(), &[0x26, 0x02, 0x2E, 0x07]);
    assert_eq!(builder.read_length(), 2);
}

#[test]
fn clock_bits_duplex() {
    let (builder, index) =
        MpsseCmdBuilder::new().clock_bits_indexed(ClockBits::MsbNegIn, 0xC3, 5);
    assert_eq!(builder.as_slice(), &[0x36, 0x04, 0xC3]);
    assert_eq!(index, 0);
    assert_eq!(builder.read_length(), 1);
    let builder = builder.clock_bits(ClockBits::LsbNegIn, 0x01, 8);
    assert_eq!(builder.as_slice(), &[0x36, 0x04, 0xC3, 0x3E, 0x07, 0x01]);
    assert_eq!(builder.read_length(), 2);
}

#[test]
fn clock_tms_out_with_tdi_high_sets_bit_7() {
    assert_eq!(
        MpsseCmdBuilder::new().clock_tms_out(ClockTMSOut::PosEdge, 0x05, true, 3).as_slice(),
        &[0x4A, 0x02, 0x85]
    );
    assert_eq!(
        MpsseCmdBuilder::new().clock_tms_out(ClockTMSOut::NegEdge, 0x85, true, 7).as_slice(),
        &[0x4B, 0x06, 0x85]
    );
}

#[test]
fn clock_tms_out_with_tdi_low_leaves_bit_7() {
    assert_eq!(
        MpsseCmdBuilder::new().clock_tms_out(ClockTMSOut::PosEdge, 0x05, false, 3).as_slice(),
        &[0x4A, 0x02, 0x05]
    );
    assert_eq!(
        MpsseCmdBuilder::new().clock_tms_out(ClockTMSOut::PosEdge, 0x85, false, 1).as_slice(),
        &[0x4A, 0x00, 0x85]
    );
}

#[test]
fn clock_tms_every_data_byte() {
    for data in 0u8..=255 {
        let high = MpsseCmdBuilder::new().clock_tms(ClockTMS::PosTMSNegTDO, data, true, 7);
        assert_eq!(high.as_slice(), &[0x6E, 0x06, data | 0x80]);
        assert_eq!(high.as_slice()[2] & 0x80, 0x80);
        let low = MpsseCmdBuilder::new().clock_tms(ClockTMS::NegTMSPosTDO, data, false, 7);
        assert_eq!(low.as_slice(), &[0x6B, 0x06, data]);
    }
}

#[test]
fn clock_tms_declares_one_byte() {
    let (builder, index) = MpsseCmdBuilder::new()
        .gpio_lower()
        .clock_tms_indexed(ClockTMS::NegTMSNegTDO, 0x7F, true, 7);
    assert_eq!(builder.as_slice(), &[0x81, 0x6F, 0x06, 0xFF]);
    assert_eq!(index, 1);
    assert_eq!(builder.read_length(), 2);
}

#[test]
fn offsets_add_up_over_a_sequence() {
    let (builder, a) = MpsseCmdBuilder::new().gpio_lower_indexed();
    let builder = builder.set_gpio_lower(0x08, 0x0B);
    let (builder, b) = builder.clock_data_in_indexed(ClockDataIn::MsbNeg, 5);
    let builder = builder.clock_data_out(ClockDataOut::MsbNeg, &[1, 2, 3]);
    let (builder, c) = builder.clock_bits_in_indexed(ClockBitsIn::MsbPos, 2);
    let (builder, d) = builder.clock_data_indexed(ClockData::MsbPosIn, &[9, 8, 7, 6]);
    let (builder, e) = builder.clock_tms_indexed(ClockTMS::PosTMSPosTDO, 0, false, 1);
    let (builder, f) = builder.clock_bits_indexed(ClockBits::MsbPosIn, 0, 8);
    let (builder, g) = builder.gpio_upper_indexed();
    assert_eq!(a, 0);
    assert_eq!(b, 1..6);
    assert_eq!(c, 6);
    assert_eq!(d, 7..11);
    assert_eq!(e, 11);
    assert_eq!(f, 12);
    assert_eq!(g, 13);
    assert_eq!(builder.read_length(), 14);
}

#[test]
fn plain_reads_move_the_ledger_too() {
    let builder = MpsseCmdBuilder::new()
        .clock_data_in(ClockDataIn::MsbPos, 10)
        .clock_data(ClockData::MsbNegIn, &[0, 0]);
    let (builder, index) = builder.gpio_lower_indexed();
    assert_eq!(index, 12);
    assert_eq!(builder.read_length(), 13);
}

#[test]
fn chained_spi_transfer() {
    let builder = MpsseCmdBuilder::new()
        .set_gpio_lower(0x0, 0xb)
        .wait_on_io_high()
        .clock_data(ClockData::MsbPosIn, &[0x12, 0x34, 0x56])
        .set_gpio_lower(0x8, 0xb)
        .send_immediate();
    assert_eq!(
        builder.as_slice(),
        &[0x80, 0x00, 0x0B, 0x88, 0x31, 0x02, 0x00, 0x12, 0x34, 0x56, 0x80, 0x08, 0x0B, 0x87]
    );
    assert_eq!(builder.read_length(), 3);
}
