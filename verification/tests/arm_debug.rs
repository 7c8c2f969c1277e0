use libjtag::arm64::{
    register_u32_read, register_u32_write, register_u64, register_u64_read, A64Target, Cti,
    EDPRSR, EDRCR, EDSCR,
};
use libjtag::dap::{DapOp, DAP};
use libjtag::sim_dap::SimDap;

const DBG_BASE: u64 = 0x8001_0000;
const CTI_BASE: u64 = 0x8001_8000;

#[test]
fn bd_window_decomposition() {
    // register_u32 first writes TAR with the 16-byte-aligned window
    // base, then accesses the banked-data slot the offset selects.
    let mut dap = DAP::new(SimDap::new());
    let before = dap.dp.ops.len();
    register_u32_write(&mut dap, DBG_BASE, 0x084, 0xABCD_0123);
    // After the call the device's TAR holds the window base, and the
    // write landed at base + offset.
    assert_eq!(DBG_BASE + 0x080, dap.dp.tar);
    assert_eq!(
        vec![(DBG_BASE + 0x084, 0xABCD_0123)],
        dap.dp.mem.clone()
    );
    // The banked-data slot used was BD1 (word index 1 of the window):
    // the last block's APACC carries word index 1.
    let ops = &dap.dp.ops[before..];
    assert_eq!(20, ops.len());
    assert_eq!(DapOp::Ap { data: 0xABCD_0123, a: 1, rnw: false }, ops[18]);
}

#[test]
fn bd_window_reuse() {
    // Three reads inside the 0x080..0x08F window: each issues a TAR
    // write targeting the window base 0x080, then BD0, BD1, BD2.
    let mut sim = SimDap::new();
    sim.mem.push((DBG_BASE + 0x080, 0x1111_1111));
    sim.mem.push((DBG_BASE + 0x084, 0x2222_2222));
    sim.mem.push((DBG_BASE + 0x088, 0x3333_3333));
    let mut dap = DAP::new(sim);

    let before = dap.dp.ops.len();
    let a = register_u32_read(&mut dap, DBG_BASE, 0x080);
    let b = register_u32_read(&mut dap, DBG_BASE, 0x084);
    let c = register_u32_read(&mut dap, DBG_BASE, 0x088);
    assert_eq!(0x1111_1111, a);
    assert_eq!(0x2222_2222, b);
    assert_eq!(0x3333_3333, c);

    let ops = &dap.dp.ops[before..];
    // Each access is 5 MEM-AP register accesses of 4 scans each: the
    // TAR write pair, the TAR read-back pair, and the BD access.
    assert_eq!(60, ops.len());
    for k in 0..3 {
        let call = &ops[k * 20..(k + 1) * 20];
        // TAR high word write: 0.
        assert_eq!(DapOp::Ap { data: 0, a: 2, rnw: false }, call[2]);
        // TAR low word write: always the window base 0x080.
        assert_eq!(
            DapOp::Ap { data: (DBG_BASE + 0x080) as u32, a: 1, rnw: false },
            call[6]
        );
        // The banked-data access walks BD0, BD1, BD2.
        assert_eq!(DapOp::Ap { data: 0, a: k as u8, rnw: true }, call[18]);
    }
}

#[test]
fn register_u64_crosses_bd_window() {
    // A 64-bit access whose low word sits in the last banked slot:
    // the high word needs a fresh TAR write for the next window.
    let mut dap = DAP::new(SimDap::new());
    register_u64(&mut dap, DBG_BASE, 0x08C, 0xDEAD_BEEF_F00D_CAFE, false);
    assert_eq!(
        vec![
            (DBG_BASE + 0x08C, 0xF00D_CAFEu32),
            (DBG_BASE + 0x090, 0xDEAD_BEEFu32),
        ],
        dap.dp.mem.clone()
    );
    // TAR was re-pointed at the next window.
    assert_eq!(DBG_BASE + 0x090, dap.dp.tar);
}

#[test]
fn register_u64_within_one_window() {
    let mut dap = DAP::new(SimDap::new());
    register_u64(&mut dap, DBG_BASE, 0x080, 0x0123_4567_89AB_CDEF, false);
    assert_eq!(
        vec![
            (DBG_BASE + 0x080, 0x89AB_CDEFu32),
            (DBG_BASE + 0x084, 0x0123_4567u32),
        ],
        dap.dp.mem.clone()
    );
    assert_eq!(DBG_BASE + 0x080, dap.dp.tar);
}

#[test]
fn halt_core_sequence() {
    // The halt recipe on a scripted device: unlock the OS lock, set
    // EDSCR.HDE, enable the CTI, open channel 0's gate, route output
    // trigger 0 to channel 0, pulse, and observe the status change.
    let mut sim = SimDap::new();
    // Reads consumed in order: EDSCR before the HDE write (HDE=0,
    // ITE=0, STATUS=0x02), CTIGATE, CTIOUTEN0, and the final EDSCR
    // with STATUS=0x03 after the pulse.
    sim.script.push((DBG_BASE + 0x088, 0x0000_0002));
    sim.script.push((CTI_BASE + 0x140, 0x0000_000F));
    sim.script.push((CTI_BASE + 0x0A0, 0x0000_0000));
    sim.script.push((DBG_BASE + 0x088, 0x0000_4003));
    let mut dap = DAP::new(sim);

    let core = A64Target { baseaddr: DBG_BASE };
    let cti = Cti { baseaddr: CTI_BASE };

    core.oslar_write(&mut dap, 0);
    let mut edscr = core.edscr_read(&mut dap);
    assert_eq!(0, edscr.HDE());
    assert_eq!(0, edscr.ITE());
    assert_eq!(0x02, edscr.STATUS());
    edscr.set_hde(1);
    core.edscr_write(&mut dap, edscr);

    cti.enable(&mut dap);
    cti.channel_gate_disable(&mut dap, 0);
    cti.output_trigger_enable(&mut dap, 0, 0);
    cti.generate_pulse(&mut dap, 0);

    let edscr = core.edscr_read(&mut dap);
    assert_eq!(1, edscr.HDE());
    assert_eq!(0x03, edscr.STATUS());

    // The writes reached the device in exactly this order.
    assert_eq!(
        vec![
            (DBG_BASE + 0x300, 0u32),        // OSLAR_EL1 <- 0
            (DBG_BASE + 0x088, 0x4002u32),   // EDSCR.HDE <- 1
            (CTI_BASE + 0x000, 1u32),        // CTICONTROL <- 1
            (CTI_BASE + 0x140, 0xEu32),      // CTIGATE bit 0 cleared
            (CTI_BASE + 0x0A0, 1u32),        // CTIOUTEN0 bit 0 set
            (CTI_BASE + 0x01C, 1u32),        // CTIAPPPULSE <- 1
        ],
        dap.dp.mem.clone()
    );
    // The script is fully consumed.
    assert!(dap.dp.script.is_empty());
}

#[test]
fn cti_trigger_status_masks_bit() {
    let mut sim = SimDap::new();
    sim.script.push((CTI_BASE + 0x130, 0x0000_0004));
    sim.script.push((CTI_BASE + 0x134, 0x0000_0004));
    let mut dap = DAP::new(sim);
    let cti = Cti { baseaddr: CTI_BASE };
    assert!(cti.input_trigger_status(&mut dap, 2));
    assert!(!cti.output_trigger_status(&mut dap, 3));
}

#[test]
fn edscr_bitfield_views() {
    let r = EDSCR(0x2140_4403);
    assert_eq!(1, r.TXfull());
    assert_eq!(1, r.ITE());
    assert_eq!(1, r.HDE());
    assert_eq!(1, r.RW());
    assert_eq!(0x03, r.STATUS());
    let mut r = EDSCR(0);
    r.set_hde(1);
    assert_eq!(0x4000, r.0);
    r.set_hde(0);
    assert_eq!(0, r.0);
}

#[test]
fn edrcr_and_edprsr_bitfield_views() {
    let mut r = EDRCR(0);
    r.set_CBRRQ(1);
    assert_eq!(0x10, r.0);
    assert_eq!(1, r.CBRRQ());
    r.set_CSE(1);
    assert_eq!(0x14, r.0);
    assert_eq!(1, r.CSE());

    let p = EDPRSR(0x30);
    assert_eq!(1, p.OSLK());
    assert_eq!(1, p.HALTED());
    let p = EDPRSR(0x10);
    assert_eq!(0, p.OSLK());
    assert_eq!(1, p.HALTED());
}

#[test]
fn edprsr_read_reports_halted() {
    let mut sim = SimDap::new();
    sim.script.push((DBG_BASE + 0x314, 0x0000_0010));
    let mut dap = DAP::new(sim);
    let core = A64Target { baseaddr: DBG_BASE };
    let p = core.edprsr_read(&mut dap);
    assert_eq!(1, p.HALTED());
    assert_eq!(0, p.OSLK());
}

#[test]
fn cti_gate_enable_preserves_other_bits() {
    // The read-modify-write only sets the requested bit.
    let mut sim = SimDap::new();
    sim.script.push((CTI_BASE + 0x140, 0x0000_0500));
    let mut dap = DAP::new(sim);
    let cti = Cti { baseaddr: CTI_BASE };
    cti.channel_gate_enable(&mut dap, 0);
    assert_eq!(vec![(CTI_BASE + 0x140, 0x0000_0501)], dap.dp.mem.clone());
}

#[test]
fn register_u64_read_assembles_both_words() {
    let mut sim = SimDap::new();
    sim.mem.push((DBG_BASE + 0x08C, 0xF00D_CAFE));
    sim.mem.push((DBG_BASE + 0x090, 0xDEAD_BEEF));
    let mut dap = DAP::new(sim);
    let v = libjtag::arm64::register_u64_read(&mut dap, DBG_BASE, 0x08C);
    assert_eq!(0xDEAD_BEEF_F00D_CAFE, v);
}
