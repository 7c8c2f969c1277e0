use libjtag::interface::JtagBit;
use libjtag::jtag::{Jtag, TAP};
use libjtag::jtag_state_machine::{JtagState, JtagStateMachine};
use libjtag::sim::SimAdapter;

/// Push the low `n` bits of `v`, least-significant first.
fn push_word(q: &mut Vec<bool>, v: u32, n: usize) {
    for i in 0..n {
        q.push((v >> i) & 1 == 1);
    }
}

/// A TDO queue whose scan readback terminates immediately (a 0xFF
/// word), so construction records no devices.
fn terminator_queue() -> Vec<bool> {
    let mut q = Vec::new();
    push_word(&mut q, 0x0000_00ff, 32);
    q
}

/// Replay a trace suffix through the TAP diagram, starting from
/// Reset, and collect (state, TDI) for every cycle.
fn interpret(log: &[JtagBit]) -> Vec<(JtagState, bool)> {
    let mut machine = JtagStateMachine::new();
    let mut out = Vec::new();
    for entry in log {
        out.push((machine.state(), entry.tdi));
        machine.consume(entry.tms);
    }
    out
}

#[test]
fn change_state_test() {
    let interface = SimAdapter::new(terminator_queue());
    let mut jtag = Jtag::new(interface);

    // to Reset
    let froms = [
        JtagState::Reset,
        JtagState::RunIdle,
        JtagState::SelectDRScan,
        JtagState::CaptureDR,
        JtagState::ShiftDR,
        JtagState::Exit1DR,
        JtagState::PauseDR,
        JtagState::Exit2DR,
        JtagState::UpdateDR,
        JtagState::SelectIRScan,
        JtagState::CaptureIR,
        JtagState::ShiftIR,
        JtagState::Exit1IR,
        JtagState::PauseIR,
        JtagState::Exit2IR,
        JtagState::UpdateIR,
    ];
    for s in froms {
        jtag.debug_set_state(s);
        assert_eq!(s, jtag.state());
        jtag.change_state(JtagState::Reset);
        assert_eq!(
            JtagState::Reset,
            jtag.state(),
            "expected state {:?} -> {:?}, but actual state {:?} -> {:?}",
            s,
            JtagState::Reset,
            s,
            jtag.state()
        );
    }

    // to RunIdle
    let to = JtagState::RunIdle;
    for from in froms {
        jtag.debug_set_state(from);
        assert_eq!(from, jtag.state());
        jtag.change_state(to);
        assert_eq!(
            to,
            jtag.state(),
            "expected state {:?} -> {:?}, but actual state {:?} -> {:?}",
            from,
            to,
            from,
            jtag.state()
        );
    }

    // to CaptureDR
    let froms = [JtagState::Reset, JtagState::RunIdle];
    let to = JtagState::CaptureDR;
    for from in froms {
        jtag.debug_set_state(from);
        assert_eq!(from, jtag.state());
        println!("{:?}", jtag.state());
        jtag.change_state(to);
        println!("{:?}", jtag.state());
        assert_eq!(
            to,
            jtag.state(),
            "expected state {:?} -> {:?}, but actual state {:?} -> {:?}",
            from,
            to,
            from,
            jtag.state()
        );
    }

    // to ShiftDR
    let froms = [JtagState::Reset, JtagState::RunIdle];
    let to = JtagState::ShiftDR;
    for from in froms {
        jtag.debug_set_state(from);
        assert_eq!(from, jtag.state());
        println!("{:?}", jtag.state());
        jtag.change_state(to);
        println!("{:?}", jtag.state());
        assert_eq!(
            to,
            jtag.state(),
            "expected state {:?} -> {:?}, but actual state {:?} -> {:?}",
            from,
            to,
            from,
            jtag.state()
        );
    }

    // to UpdateDR
    let froms = [JtagState::Exit1DR];
    let to = JtagState::UpdateDR;
    for from in froms {
        jtag.debug_set_state(from);
        assert_eq!(from, jtag.state());
        println!("{:?}", jtag.state());
        jtag.change_state(to);
        println!("{:?}", jtag.state());
        assert_eq!(
            to,
            jtag.state(),
            "expected state {:?} -> {:?}, but actual state {:?} -> {:?}",
            from,
            to,
            from,
            jtag.state()
        );
    }

    // to CaptureIR
    let froms = [JtagState::Reset, JtagState::RunIdle];
    let to = JtagState::CaptureIR;
    for from in froms {
        jtag.debug_set_state(from);
        assert_eq!(from, jtag.state());
        println!("{:?}", jtag.state());
        jtag.change_state(to);
        println!("{:?}", jtag.state());
        assert_eq!(
            to,
            jtag.state(),
            "expected state {:?} -> {:?}, but actual state {:?} -> {:?}",
            from,
            to,
            from,
            jtag.state()
        );
    }

    // to ShiftIR
    let froms = [JtagState::Reset, JtagState::RunIdle];
    let to = JtagState::ShiftIR;
    for from in froms {
        jtag.debug_set_state(from);
        assert_eq!(from, jtag.state());
        println!("{:?}", jtag.state());
        jtag.change_state(to);
        println!("{:?}", jtag.state());
        assert_eq!(
            to,
            jtag.state(),
            "expected state {:?} -> {:?}, but actual state {:?} -> {:?}",
            from,
            to,
            from,
            jtag.state()
        );
    }

    // to UpdateIR
    let froms = [JtagState::Exit1IR];
    let to = JtagState::UpdateIR;
    for from in froms {
        jtag.debug_set_state(from);
        assert_eq!(from, jtag.state());
        println!("{:?}", jtag.state());
        jtag.change_state(to);
        println!("{:?}", jtag.state());
        assert_eq!(
            to,
            jtag.state(),
            "expected state {:?} -> {:?}, but actual state {:?} -> {:?}",
            from,
            to,
            from,
            jtag.state()
        );
    }
}

#[test]
fn idcode_scan_one_device() {
    // One IDCODE device (the mandatory marker bit 0 set), then the
    // 0xFF chain terminator.
    let mut q = Vec::new();
    push_word(&mut q, 0x1234_5679, 32);
    push_word(&mut q, 0x0000_00ff, 32);
    let jtag = Jtag::new(SimAdapter::new(q));
    assert_eq!(Some(0x1234_5679), jtag.idcodes[0]);
    assert_eq!(None, jtag.idcodes[1]);
}

#[test]
fn idcode_scan_bypass_and_device() {
    // One device in BYPASS (a leading 0), then an IDCODE device,
    // then the terminator.
    let mut q = Vec::new();
    q.push(false);
    push_word(&mut q, 0x2ba0_1477, 32);
    push_word(&mut q, 0x0000_00ff, 32);
    let jtag = Jtag::new(SimAdapter::new(q));
    assert_eq!(Some(0), jtag.idcodes[0]);
    assert_eq!(Some(0x2ba0_1477), jtag.idcodes[1]);
}

#[test]
fn idcode_scan_empty_chain_reads_low() {
    // An exhausted adapter samples low: every bit reads as BYPASS.
    let jtag = Jtag::new(SimAdapter::new(Vec::new()));
    assert_eq!(Some(0), jtag.idcodes[0]);
    assert_eq!(Some(0), jtag.idcodes[1]);
}

#[test]
fn write_instruction_clocks_ir_len_bits_lsb_first() {
    let jtag = Jtag::new(SimAdapter::new(terminator_queue()));
    let mut tap = TAP::new(jtag, 4);
    let before = tap.jtag.interface.log.len();
    tap.write_instruction(0b1010);
    let suffix = &tap.jtag.interface.log[before..];
    // The core was left in Reset by construction, so replay the
    // suffix from Reset.
    let cycles = interpret(suffix);
    let ir_bits: Vec<bool> = cycles
        .iter()
        .filter(|(s, _)| *s == JtagState::ShiftIR)
        .map(|(_, tdi)| *tdi)
        .collect();
    assert_eq!(vec![false, true, false, true], ir_bits);
    assert_eq!(JtagState::RunIdle, tap.jtag.state());
}

#[test]
fn write_instruction_masks_to_ir_len() {
    let jtag = Jtag::new(SimAdapter::new(terminator_queue()));
    let mut tap = TAP::new(jtag, 4);
    let before = tap.jtag.interface.log.len();
    // Only the low 4 bits are clocked.
    tap.write_instruction(0xFA);
    let suffix = &tap.jtag.interface.log[before..];
    let cycles = interpret(suffix);
    let ir_bits: Vec<bool> = cycles
        .iter()
        .filter(|(s, _)| *s == JtagState::ShiftIR)
        .map(|(_, tdi)| *tdi)
        .collect();
    assert_eq!(vec![false, true, false, true], ir_bits);
}

#[test]
fn read_write_dr_full_duplex() {
    let mut q = terminator_queue();
    // After the 64-bit construction scan drains 32 bits and pads the
    // rest, seed 8 more samples for our own scan.
    for _ in 0..32 {
        q.push(false);
    }
    push_word(&mut q, 0xA5, 8);
    let mut jtag = Jtag::new(SimAdapter::new(q));
    let mut data = vec![true, true, true, true, true, true, true, true];
    jtag.read_write_dr(&mut data, true, false, false);
    let got: u32 = data
        .iter()
        .enumerate()
        .map(|(i, b)| (*b as u32) << i)
        .sum();
    assert_eq!(0xA5, got);
    assert_eq!(JtagState::RunIdle, jtag.state());
}

#[test]
fn release_leaves_chain_in_reset() {
    let jtag = Jtag::new(SimAdapter::new(terminator_queue()));
    let tap = TAP::new(jtag, 4);
    let jtag = tap.release();
    assert_eq!(JtagState::Reset, jtag.state());
    // The release really clocked five TMS=1 cycles.
    let n = jtag.interface.log.len();
    for entry in &jtag.interface.log[n - 5..] {
        assert!(entry.tms);
    }
}

#[test]
fn idcode_scan_stops_at_device_limit() {
    // Three devices on the chain: only the first two are recorded,
    // and the scan stops silently.
    let mut q = Vec::new();
    push_word(&mut q, 0x2ba0_1477, 32);
    q.push(false);
    push_word(&mut q, 0x2ba0_1477, 31);
    let jtag = Jtag::new(SimAdapter::new(q));
    assert_eq!(Some(0x2ba0_1477), jtag.idcodes[0]);
    assert_eq!(Some(0), jtag.idcodes[1]);
}

#[test]
fn idcode_scan_ignores_bits_past_the_limit() {
    // A stray marker bit late in the readback: the device limit was
    // reached on the two leading zeros, so it is never interpreted.
    let mut q = Vec::new();
    for _ in 0..63 {
        q.push(false);
    }
    q.push(true);
    let jtag = Jtag::new(SimAdapter::new(q));
    assert_eq!(Some(0), jtag.idcodes[0]);
    assert_eq!(Some(0), jtag.idcodes[1]);
}

#[test]
fn write_instruction_widest_ir() {
    let jtag = Jtag::new(SimAdapter::new(terminator_queue()));
    let mut tap = TAP::new(jtag, 8);
    let before = tap.jtag.interface.log.len();
    tap.write_instruction(0xC3);
    let cycles = interpret(&tap.jtag.interface.log[before..]);
    let ir_bits: Vec<bool> = cycles
        .iter()
        .filter(|(s, _)| *s == JtagState::ShiftIR)
        .map(|(_, tdi)| *tdi)
        .collect();
    assert_eq!(
        vec![true, true, false, false, false, false, true, true],
        ir_bits
    );
}
