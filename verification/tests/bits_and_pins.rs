use libjtag::bits::{push_bit_seq, reverse_bits, window_val};
use libjtag::ftdi_bitbang::{bitbang_samples, bitbang_stream, FtdiJtagPin, FtdiJtagPins};
use libjtag::interface::JtagBit;

#[test]
fn push_and_collect_bits() {
    let mut v: Vec<bool> = Vec::new();
    push_bit_seq(&mut v, 0b1011, 4);
    assert_eq!(vec![true, true, false, true], v);
    push_bit_seq(&mut v, 0xFFFF_FFFF, 32);
    assert_eq!(36, v.len());
    let w = window_val(&v, 0, 4);
    assert_eq!(0b1011, w);
    let w = window_val(&v, 4, 32);
    assert_eq!(0xFFFF_FFFF, w);
}

#[test]
fn reverse_bits_in_place() {
    let mut v = vec![true, false, false, true, true];
    reverse_bits(&mut v);
    assert_eq!(vec![true, true, false, false, true], v);
    let mut empty: Vec<bool> = Vec::new();
    reverse_bits(&mut empty);
    assert!(empty.is_empty());
}

fn out_pin(position: u8) -> FtdiJtagPin {
    FtdiJtagPin { position, input: false }
}

fn in_pin(position: u8) -> FtdiJtagPin {
    FtdiJtagPin { position, input: true }
}

fn pin_map() -> FtdiJtagPins {
    FtdiJtagPins {
        tck: out_pin(0),
        tdi: out_pin(1),
        tdo: in_pin(2),
        tms: out_pin(3),
        srst: out_pin(4),
        trst: out_pin(5),
        rtck: in_pin(6),
    }
}

#[test]
fn to_bit_is_the_position_mask() {
    assert_eq!(0b0000_1000, pin_map().tms.to_bit());
    assert_eq!(0b0000_0001, pin_map().tck.to_bit());
    let mpsse_pin =
        libjtag::ftdi_mpsse::FtdiJtagPin { position: 7, input: true, initial_value: false };
    assert_eq!(0b1000_0000, mpsse_pin.to_bit());
}

#[test]
fn pin_mapping_roundtrip() {
    let p = pin_map();
    let pins = JtagBit { tms: true, tck: false, tdi: true, tdo: false, trst: true, srst: false };
    let byte = p.pins_to_u8(&pins);
    assert_eq!((1 << 3) | (1 << 1) | (1 << 5), byte);
    let back = p.u8_to_pins(byte);
    assert_eq!(pins, back);
}

#[test]
fn bitbang_stream_two_bytes_per_cycle() {
    let p = pin_map();
    let data = vec![
        JtagBit { tms: true, tck: false, tdi: false, tdo: false, trst: false, srst: false },
        JtagBit { tms: false, tck: false, tdi: true, tdo: false, trst: false, srst: false },
    ];
    let stream = bitbang_stream(&p, &data);
    // Low phase then high phase (TCK is bit 0 in this map).
    assert_eq!(vec![0b1000, 0b1001, 0b0010, 0b0011], stream);
}

#[test]
fn bitbang_samples_take_high_phase_byte() {
    let p = pin_map();
    // Two cycles; TDO (bit 2) sampled high on the second.
    let buffer = vec![0b0000, 0b0001, 0b0000, 0b0101];
    let samples = bitbang_samples(&p, &buffer, 2);
    assert_eq!(2, samples.len());
    assert!(!samples[0].tdo);
    assert!(samples[1].tdo);
}

#[test]
fn mpsse_tms_command_stream() {
    // Five bits fit one chunk: opcode, length-1, bits LSB-first.
    let cmds = libjtag::ftdi_mpsse::mpsse_write_tms_commands(&vec![true, true, false, true, true]);
    assert_eq!(vec![0x4B, 4, 0b11011], cmds);
    // Nine bits split 7 + 2.
    let nine = vec![true, false, false, false, false, false, true, true, false];
    let cmds = libjtag::ftdi_mpsse::mpsse_write_tms_commands(&nine);
    assert_eq!(vec![0x4B, 6, 0b1000001, 0x4B, 1, 0b01], cmds);
    let none: Vec<bool> = Vec::new();
    assert!(libjtag::ftdi_mpsse::mpsse_write_tms_commands(&none).is_empty());
}

#[test]
fn mpsse_data_command_stream() {
    let mut bits = Vec::new();
    for i in 0..8 {
        bits.push((0xA5u32 >> i) & 1 == 1);
    }
    // Without exit the eight bits go through the data opcode.
    let cmds = libjtag::ftdi_mpsse::mpsse_write_data_commands(&bits, false);
    assert_eq!(vec![0x3B, 7, 0xA5], cmds);
    // With exit the last bit rides on a one-bit TMS command.
    let cmds = libjtag::ftdi_mpsse::mpsse_write_data_commands(&bits, true);
    assert_eq!(vec![0x3B, 6, 0x25, 0x4B, 0, 0x83], cmds);
}

#[test]
fn mpsse_unpack_sampled_bytes() {
    let bits = libjtag::ftdi_mpsse::mpsse_unpack_bits(&vec![0xA5, 0x01], 9);
    assert_eq!(
        vec![true, false, true, false, false, true, false, true, true],
        bits
    );
}
