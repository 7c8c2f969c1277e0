use libjtag::dap::{
    decode_acc, encode_acc, DapAck, DapInterface, DapOp, DebugPort, DpSelect, MemoryAccessPort,
    PdIdr, CSW, DAP,
};
use libjtag::interface::JtagBit;
use libjtag::jtag::{Jtag, TAP};
use libjtag::jtag_state_machine::{JtagState, JtagStateMachine};
use libjtag::sim::SimAdapter;
use libjtag::sim_dap::SimDap;

#[test]
fn bitfield_test() {
    let mut select = DpSelect(0);
    assert_eq!(0, select.0);
    select.set_apsel(1);
    assert_eq!(0x0100_0000, select.0);
    select.set_apbanksel(1);
    assert_eq!(0x0100_0010, select.0);
    select.set_dpbanksel(1);
    assert_eq!(0x0100_0011, select.0);
}

#[test]
fn pdidr_and_csw_bitfield_views() {
    // An ARM DPv1 identification value: revision 2, part 0xBA,
    // version 1, designer 0x23B, RAO set.
    let idr = PdIdr(0x2BA0_1477);
    assert_eq!(2, idr.REVISION());
    assert_eq!(0xBA, idr.PARTNO());
    assert_eq!(1, idr.VERSION());
    assert_eq!(0x23B, idr.DESIGNER());
    assert_eq!(1, idr.RAO());

    let csw = CSW(0x8000_0052);
    assert_eq!(1, csw.DbgSwEnable());
    assert_eq!(1, csw.DeviceEn());
    assert_eq!(1, csw.AddrInc());
    assert_eq!(2, csw.SIZE());
}

#[test]
fn dap_ack_decoding() {
    assert_eq!(DapAck::Wait, DapAck::from_u8(0x01));
    assert_eq!(DapAck::OkFault, DapAck::from_u8(0x02));
    assert_eq!(DapAck::InvalidAck, DapAck::from_u8(0x00));
    assert_eq!(DapAck::InvalidAck, DapAck::from_u8(0x07));
}

#[test]
fn acc_scan_bit_layout() {
    // RnW at bit 0, A at bits 1..2, DATA at bits 3..34 LSB-first.
    let v = encode_acc(0xDEAD_BEEF, 2, true);
    assert_eq!(35, v.len());
    assert!(v[0]);
    assert!(!v[1]);
    assert!(v[2]);
    for i in 0..32 {
        assert_eq!((0xDEAD_BEEFu32 >> i) & 1 == 1, v[3 + i]);
    }
}

#[test]
fn acc_scan_roundtrip() {
    // A scanned-out buffer with ack 0b010 and a data word decodes to
    // exactly that pair.
    let mut v = vec![false, true, false];
    for i in 0..32 {
        v.push((0xCAFE_F00Du32 >> i) & 1 == 1);
    }
    let (ack, data) = decode_acc(&v);
    assert_eq!(2, ack);
    assert_eq!(0xCAFE_F00D, data);

    // And the driven layout decodes back to the word driven.
    let enc = encode_acc(0x1234_5678, 3, false);
    let (_, word) = decode_acc(&enc);
    assert_eq!(0x1234_5678, word);
}

/// Push one scan's worth of TDO samples: 3 ack bits then the data
/// word LSB-first.
fn push_response(q: &mut Vec<bool>, ack: u8, data: u32) {
    q.push(ack & 4 != 0);
    q.push(ack & 2 != 0);
    q.push(ack & 1 != 0);
    for i in 0..32 {
        q.push((data >> i) & 1 == 1);
    }
}

/// Replay a trace suffix from Reset and return (state, tms, tdi) per
/// cycle.
fn interpret(log: &[JtagBit]) -> Vec<(JtagState, bool, bool)> {
    let mut machine = JtagStateMachine::new();
    let mut out = Vec::new();
    for entry in log {
        out.push((machine.state(), entry.tms, entry.tdi));
        machine.consume(entry.tms);
    }
    out
}

/// The bits clocked during Shift-DR, split into one vector per scan
/// (a scan ends when the state leaves Shift-DR).
fn dr_scans(cycles: &[(JtagState, bool, bool)]) -> Vec<Vec<bool>> {
    let mut scans = Vec::new();
    let mut current: Vec<bool> = Vec::new();
    let mut in_scan = false;
    for (s, tms, tdi) in cycles {
        if *s == JtagState::ShiftDR {
            in_scan = true;
            current.push(*tdi);
            if *tms {
                scans.push(std::mem::take(&mut current));
                in_scan = false;
            }
        } else if in_scan {
            scans.push(std::mem::take(&mut current));
            in_scan = false;
        }
    }
    if !current.is_empty() {
        scans.push(current);
    }
    scans
}

/// The bits clocked during Shift-IR, one vector per shift.
fn ir_scans(cycles: &[(JtagState, bool, bool)]) -> Vec<Vec<bool>> {
    let mut scans = Vec::new();
    let mut current: Vec<bool> = Vec::new();
    let mut in_scan = false;
    for (s, tms, tdi) in cycles {
        if *s == JtagState::ShiftIR {
            in_scan = true;
            current.push(*tdi);
            if *tms {
                scans.push(std::mem::take(&mut current));
                in_scan = false;
            }
        } else if in_scan {
            scans.push(std::mem::take(&mut current));
            in_scan = false;
        }
    }
    if !current.is_empty() {
        scans.push(current);
    }
    scans
}

fn bits_to_u64(bits: &[bool]) -> u64 {
    bits.iter()
        .enumerate()
        .map(|(i, b)| (*b as u64) << i)
        .sum()
}

#[test]
fn dp_select_write_on_the_wire() {
    // The SELECT write and its RDBUFF follow-up, observed at the pin
    // level: one DPACC IR shift (0b1010), then a 35-bit scan with
    // RnW=0, A=0b10, DATA=0x0000_00F0, then a 35-bit scan with
    // RnW=1, A=0b11.
    let mut q = Vec::new();
    for i in 0..32 {
        q.push((0x0000_00ffu32 >> i) & 1 == 1);
    }
    // The construction scan consumes 64 samples in all.
    for _ in 0..32 {
        q.push(false);
    }
    push_response(&mut q, 2, 0);
    push_response(&mut q, 2, 0);
    let jtag = Jtag::new(SimAdapter::new(q));
    let mut tap = TAP::new(jtag, 4);

    let before = tap.jtag.interface.log.len();
    // The SELECT word for apsel=0, apbanksel=0xF, dpbanksel=0.
    tap.dpacc(0x0000_00F0, 2, false);
    tap.dpacc(0, 3, true);
    let cycles = interpret(&tap.jtag.interface.log[before..]);

    let irs = ir_scans(&cycles);
    assert_eq!(2, irs.len());
    assert_eq!(0b1010, bits_to_u64(&irs[0]));
    assert_eq!(0b1010, bits_to_u64(&irs[1]));

    let drs = dr_scans(&cycles);
    assert_eq!(2, drs.len());
    assert_eq!(35, drs[0].len());
    assert!(!drs[0][0]); // RnW = 0
    assert!(!drs[0][1]); // A bit 0
    assert!(drs[0][2]); // A bit 1 -> A = 0b10
    assert_eq!(0x0000_00F0, bits_to_u64(&drs[0][3..]));
    assert_eq!(35, drs[1].len());
    assert!(drs[1][0]); // RnW = 1
    assert!(drs[1][1]); // A bit 0
    assert!(drs[1][2]); // A bit 1 -> A = 0b11 (RDBUFF)
}

#[test]
fn dp_select_write_ops() {
    let mut dap = DAP::new(SimDap::new());
    let before = dap.dp.ops.len();
    let ack = dap.dp_select_write(0, 0xF, 0);
    assert_eq!(DapAck::OkFault, ack);
    let ops = &dap.dp.ops[before..];
    assert_eq!(
        vec![
            DapOp::Dp { data: 0x0000_00F0, a: 2, rnw: false },
            DapOp::Dp { data: 0, a: 3, rnw: true },
        ],
        ops.to_vec()
    );
    // The device latched the routed bank.
    assert_eq!(0x0000_00F0, dap.dp.dp_select);
}

#[test]
fn posted_read_returns_previous_register() {
    // dpacc(read X) then dpacc(read RDBUFF) returns the value of X.
    let mut sim = SimDap::new();
    sim.dp_ctrlstat = 0x1234_5678;
    let (_, first) = sim.sim_dpacc(0, 1, true);
    // The first scan returns whatever was posted before, not yet X.
    assert_eq!(0, first);
    let (_, second) = sim.sim_dpacc(0, 3, true);
    assert_eq!(0x1234_5678, second);
}

#[test]
fn ctrlstat_read_through_debug_port() {
    let mut dap = DAP::new(SimDap::new());
    // Init requested debug and system power-up; the device mirrors
    // the acknowledgements.
    let (ack, ctrl) = dap.dp_ctrlstat_read();
    assert_eq!(DapAck::OkFault, ack);
    assert_eq!(0xF000_0000, ctrl.0);
    assert_eq!(1, ctrl.CDBGPWRUPACK());
    assert_eq!(1, ctrl.CSYSPWRUPACK());
}

#[test]
fn dap_init_enables_dbg_sw_enable() {
    let dap = DAP::new(SimDap::new());
    // The CSW write at the end of init set DbgSwEnable.
    assert_eq!(0x8000_0000, dap.dp.csw);
}

#[test]
fn memap_idr_read_at_apsel_0() {
    let mut sim = SimDap::new();
    sim.idr = 0x0477_0004;
    let mut dap = DAP::new(sim);
    let before = dap.dp.ops.len();
    let (ack, idr) = dap.memap_idr_read();
    assert_eq!(DapAck::OkFault, ack);
    assert_eq!(0x0477_0004, idr);
    // IDR sits at offset 0xFC: SELECT routes apbanksel 0xF, the
    // APACC read uses word index 3, and RDBUFF collects the value.
    let ops = &dap.dp.ops[before..];
    assert_eq!(
        vec![
            DapOp::Dp { data: 0x0000_00F0, a: 2, rnw: false },
            DapOp::Dp { data: 0, a: 3, rnw: true },
            DapOp::Ap { data: 0, a: 3, rnw: true },
            DapOp::Dp { data: 0, a: 3, rnw: true },
        ],
        ops.to_vec()
    );
}

#[test]
fn tap_acc_decodes_seeded_response() {
    // A full end-to-end scan through the TAP: the seeded 35 bits come
    // back as (ack, word).
    let mut q = Vec::new();
    for i in 0..32 {
        q.push((0x0000_00ffu32 >> i) & 1 == 1);
    }
    // The construction scan consumes 64 samples in all.
    for _ in 0..32 {
        q.push(false);
    }
    push_response(&mut q, 2, 0xFEED_BACC);
    let jtag = Jtag::new(SimAdapter::new(q));
    let mut tap = TAP::new(jtag, 4);
    let (ack, data) = tap.dpacc(0, 3, true);
    assert_eq!(2, ack);
    assert_eq!(0xFEED_BACC, data);
}

#[test]
fn abort_scans_one_bit_set() {
    let mut q = Vec::new();
    for i in 0..32 {
        q.push((0x0000_00ffu32 >> i) & 1 == 1);
    }
    // The construction scan consumes 64 samples in all.
    for _ in 0..32 {
        q.push(false);
    }
    let jtag = Jtag::new(SimAdapter::new(q));
    let mut tap = TAP::new(jtag, 4);
    let before = tap.jtag.interface.log.len();
    tap.abort();
    let cycles = interpret(&tap.jtag.interface.log[before..]);
    let irs = ir_scans(&cycles);
    assert_eq!(1, irs.len());
    assert_eq!(0b1000, bits_to_u64(&irs[0]));
    let drs = dr_scans(&cycles);
    assert_eq!(1, drs.len());
    assert_eq!(32, drs[0].len());
    assert_eq!(1, bits_to_u64(&drs[0]));
}

#[test]
fn tar_u64_roundtrip_through_memap() {
    // Writing TAR through the two halves and reading it back
    // reassembles the same 64-bit address.
    let mut dap = DAP::new(SimDap::new());
    let ack = dap.memap_tar_u64_write(0x0000_1234_8001_0080);
    assert_eq!(DapAck::OkFault, ack);
    assert_eq!(0x0000_1234_8001_0080, dap.dp.tar);
    let (_, read_back) = dap.memap_tar_u64_read();
    assert_eq!(0x0000_1234_8001_0080, read_back);
}
