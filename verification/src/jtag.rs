//! The JTAG core: owns an adapter, keeps the TAP state machine in
//! lockstep with every bit it clocks, moves between TAP states over
//! minimal TMS sequences, shifts IR and DR, and discovers the scan
//! chain's IDCODEs at construction. `TAP` is the scoped handle that
//! the DAP layer drives.

use crate::bits::{bit_seq, bits_val, min_nat, push_bit_seq, take_pad, window_val};
use crate::dap::DapOp;
use crate::interface::{tdi_entries, tms_entries, JtagBit, JtagInterface};
use crate::jtag_state_machine::{
    lemma_reset_absorbing, lemma_tap_path1, lemma_tap_path2, lemma_tap_path3, lemma_tap_path4,
    lemma_tap_path_append, lemma_tap_path_snoc, tap_path, tap_transition, JtagState,
    JtagStateMachine,
};
use vstd::prelude::*;

verus! {

/// The most devices an IDCODE scan will record.
pub const TAP_DEVICE_MAX: usize = 2;

/// The TMS bits that drive `from` to Run-Test/Idle along the standard
/// diagram.
pub open spec fn tms_to_runidle(from: JtagState) -> Seq<bool> {
    match from {
        JtagState::Reset => seq![false],
        JtagState::RunIdle => seq![],
        JtagState::SelectDRScan => seq![false, true, true, false],
        JtagState::SelectIRScan => seq![false, true, true, false],
        JtagState::CaptureDR => seq![true, true, false],
        JtagState::CaptureIR => seq![true, true, false],
        JtagState::ShiftDR => seq![true, true, false],
        JtagState::ShiftIR => seq![true, true, false],
        JtagState::Exit1DR => seq![true, false],
        JtagState::Exit1IR => seq![true, false],
        JtagState::PauseDR => seq![true, true, false],
        JtagState::PauseIR => seq![true, true, false],
        JtagState::Exit2DR => seq![true, false],
        JtagState::Exit2IR => seq![true, false],
        JtagState::UpdateDR => seq![false],
        JtagState::UpdateIR => seq![false],
    }
}

/// The TMS bits that drive Run-Test/Idle to `to`, for the
/// destinations the sequencer supports.
pub open spec fn runidle_tms_to(to: JtagState) -> Seq<bool> {
    match to {
        JtagState::RunIdle => seq![],
        JtagState::CaptureDR => seq![true, false],
        JtagState::ShiftDR => seq![true, false, false],
        JtagState::CaptureIR => seq![true, true, false],
        JtagState::ShiftIR => seq![true, true, false, false],
        _ => seq![],
    }
}

/// The (from, to) pairs `change_state` handles; any other request
/// is a programming error and is excluded by precondition.
pub open spec fn path_supported(from: JtagState, to: JtagState) -> bool {
    ||| to == JtagState::Reset
    ||| from == to
    ||| to == JtagState::RunIdle
    ||| ((from == JtagState::Reset || from == JtagState::RunIdle) && (to == JtagState::CaptureDR
        || to == JtagState::ShiftDR || to == JtagState::CaptureIR || to == JtagState::ShiftIR))
    ||| (from == JtagState::Exit1DR && to == JtagState::UpdateDR)
    ||| (from == JtagState::Exit1IR && to == JtagState::UpdateIR)
}

/// The exact TMS sequence `change_state` emits for a supported pair.
/// Reset is always re-emitted with five ones, even from Reset; a
/// same-state request otherwise emits nothing.
pub open spec fn change_tms(from: JtagState, to: JtagState) -> Seq<bool> {
    if from == to && to != JtagState::Reset {
        seq![]
    } else if to == JtagState::Reset {
        seq![true, true, true, true, true]
    } else if from == JtagState::Reset {
        seq![false] + runidle_tms_to(to)
    } else if to == JtagState::RunIdle {
        tms_to_runidle(from)
    } else if from == JtagState::RunIdle {
        runidle_tms_to(to)
    } else {
        seq![true]
    }
}

/// The TMS sequence emitted to reach a shift state (`shift` is
/// ShiftIR or ShiftDR) from `s`: directly from Reset, Run-Test/Idle
/// or the shift state itself, otherwise via Run-Test/Idle.
pub open spec fn shift_prefix(s: JtagState, shift: JtagState) -> Seq<bool> {
    if s == JtagState::Reset || s == JtagState::RunIdle || s == shift {
        change_tms(s, shift)
    } else {
        tms_to_runidle(s) + change_tms(JtagState::RunIdle, shift)
    }
}

/// Driving `from` to Run-Test/Idle with `tms_to_runidle` lands in
/// Run-Test/Idle.
pub proof fn lemma_to_runidle_correct(from: JtagState)
    ensures
        tap_path(from, tms_to_runidle(from)) == JtagState::RunIdle,
{
    match from {
        JtagState::Reset => lemma_tap_path1(from, false),
        JtagState::RunIdle => assert(tms_to_runidle(from).len() == 0),
        JtagState::SelectDRScan => lemma_tap_path4(from, false, true, true, false),
        JtagState::SelectIRScan => lemma_tap_path4(from, false, true, true, false),
        JtagState::CaptureDR => lemma_tap_path3(from, true, true, false),
        JtagState::CaptureIR => lemma_tap_path3(from, true, true, false),
        JtagState::ShiftDR => lemma_tap_path3(from, true, true, false),
        JtagState::ShiftIR => lemma_tap_path3(from, true, true, false),
        JtagState::Exit1DR => lemma_tap_path2(from, true, false),
        JtagState::Exit1IR => lemma_tap_path2(from, true, false),
        JtagState::PauseDR => lemma_tap_path3(from, true, true, false),
        JtagState::PauseIR => lemma_tap_path3(from, true, true, false),
        JtagState::Exit2DR => lemma_tap_path2(from, true, false),
        JtagState::Exit2IR => lemma_tap_path2(from, true, false),
        JtagState::UpdateDR => lemma_tap_path1(from, false),
        JtagState::UpdateIR => lemma_tap_path1(from, false),
    }
}

/// Driving Run-Test/Idle with `runidle_tms_to` lands in the requested
/// destination, for the supported destinations.
pub proof fn lemma_runidle_to_correct(to: JtagState)
    requires
        to == JtagState::RunIdle || to == JtagState::CaptureDR || to == JtagState::ShiftDR || to
            == JtagState::CaptureIR || to == JtagState::ShiftIR,
    ensures
        tap_path(JtagState::RunIdle, runidle_tms_to(to)) == to,
{
    let s = JtagState::RunIdle;
    match to {
        JtagState::RunIdle => assert(runidle_tms_to(to).len() == 0),
        JtagState::CaptureDR => lemma_tap_path2(s, true, false),
        JtagState::ShiftDR => lemma_tap_path3(s, true, false, false),
        JtagState::CaptureIR => lemma_tap_path3(s, true, true, false),
        JtagState::ShiftIR => lemma_tap_path4(s, true, true, false, false),
        _ => assert(false),
    }
}

/// Correctness of the state sequencer: for every supported pair,
/// the emitted TMS sequence drives the TAP diagram from `from` to
/// exactly `to`.
pub proof fn lemma_change_tms_correct(from: JtagState, to: JtagState)
    requires
        path_supported(from, to),
    ensures
        tap_path(from, change_tms(from, to)) == to,
{
    let p = change_tms(from, to);
    if from == to && to != JtagState::Reset {
        assert(p.len() == 0);
    } else if to == JtagState::Reset {
        lemma_reset_absorbing(from);
    } else if from == JtagState::Reset {
        lemma_tap_path_append(from, seq![false], runidle_tms_to(to));
        lemma_tap_path1(from, false);
        lemma_runidle_to_correct(to);
    } else if to == JtagState::RunIdle {
        lemma_to_runidle_correct(from);
    } else if from == JtagState::RunIdle {
        lemma_runidle_to_correct(to);
    } else {
        lemma_tap_path1(from, true);
    }
}

/// `tms_entries` distributes over concatenation.
pub proof fn lemma_tms_entries_append(a: Seq<bool>, b: Seq<bool>)
    ensures
        tms_entries(a + b) == tms_entries(a) + tms_entries(b),
{
    assert(tms_entries(a + b) =~= tms_entries(a) + tms_entries(b));
}

/// Records of one IDCODE scan readback, interpreted LSB-first: a
/// leading 1 starts a 32-bit IDCODE (a word of 0xFF terminates the
/// chain), a leading 0 is a device in BYPASS recorded as 0; at most
/// `room` devices are recorded.
pub open spec fn scan_records(bits: Seq<bool>, room: nat) -> Seq<u32>
    decreases bits.len(),
{
    if room == 0 || bits.len() == 0 {
        seq![]
    } else if !bits[0] {
        seq![0u32] + scan_records(bits.skip(1), (room - 1) as nat)
    } else if bits.len() >= 32 {
        let id = bits_val(bits.take(32));
        if id == 0xff {
            seq![]
        } else {
            seq![id as u32] + scan_records(bits.skip(32), (room - 1) as nat)
        }
    } else {
        seq![]
    }
}

/// What the IDCODE auto-scan records from a 64-bit readback: the
/// first two records, padded with `None`.
pub open spec fn idcode_scan_spec(bits: Seq<bool>) -> Seq<Option<u32>> {
    let recs = scan_records(bits, TAP_DEVICE_MAX as nat);
    Seq::new(
        TAP_DEVICE_MAX as nat,
        |i: int|
            if i < recs.len() {
                Some(recs[i])
            } else {
                None
            },
    )
}

/// Every cycle the IDCODE auto-scan drives, whatever state it starts
/// from: five TMS=1 cycles to Reset, the route to Shift-DR, the
/// 64-bit pattern (a 0xFF word then zeros) with TMS raised on the
/// last bit, and the exit back to Run-Test/Idle.
pub open spec fn scan_trace() -> Seq<JtagBit> {
    tms_entries(seq![true, true, true, true, true]) + tms_entries(
        change_tms(JtagState::Reset, JtagState::ShiftDR),
    ) + tdi_entries(bit_seq(0x0000_00ff, 32) + bit_seq(0, 32), true) + tms_entries(
        change_tms(JtagState::Exit1DR, JtagState::RunIdle),
    )
}

/// The JTAG core: exactly one adapter, the tracked TAP state, and the
/// IDCODEs discovered at construction (BYPASS devices recorded as 0).
pub struct Jtag<T> {
    pub interface: T,
    pub state_machine: JtagStateMachine,
    pub idcodes: Vec<Option<u32>>,
}

impl<T: JtagInterface> Jtag<T> {
    /// Build a core around an adapter: run the IDCODE auto-scan once,
    /// then park the chain in Test-Logic-Reset.
    pub fn new(interface: T) -> (r: Jtag<T>)
        ensures
            r.state_machine.state == JtagState::Reset,
            r.idcodes@ == idcode_scan_spec(take_pad(interface.tdo_queue(), 64)),
            r.interface.tdo_queue() == interface.tdo_queue().skip(
                min_nat(64, interface.tdo_queue().len()) as int,
            ),
            r.interface.trace() == interface.trace() + scan_trace() + tms_entries(
                change_tms(JtagState::RunIdle, JtagState::Reset),
            ),
    {
        let mut idcodes: Vec<Option<u32>> = Vec::new();
        idcodes.push(None);
        idcodes.push(None);
        let mut jtag = Jtag { interface, state_machine: JtagStateMachine::new(), idcodes };
        jtag.scan();
        jtag.change_state(JtagState::Reset);
        jtag
    }

    /// The tracked TAP state.
    pub fn state(&self) -> (r: JtagState)
        ensures
            r == self.state_machine.state,
    {
        self.state_machine.state()
    }

    /// Clock the given TMS bits and advance the tracker by exactly
    /// those bits.
    pub fn write_tms(&mut self, tms: &Vec<bool>)
        ensures
            final(self).state_machine.state == tap_path(old(self).state_machine.state, tms@),
            final(self).interface.trace() == old(self).interface.trace() + tms_entries(tms@),
            final(self).interface.tdo_queue() == old(self).interface.tdo_queue(),
            final(self).idcodes == old(self).idcodes,
    {
        self.interface.write_tms(tms);
        let n = tms.len();
        let ghost s0 = self.state_machine.state;
        let mut i: usize = 0;
        while i < n
            invariant
                i <= n,
                n == tms@.len(),
                self.state_machine.state == tap_path(s0, tms@.take(i as int)),
                self.interface.trace() == old(self).interface.trace() + tms_entries(tms@),
                self.interface.tdo_queue() == old(self).interface.tdo_queue(),
                self.idcodes == old(self).idcodes,
            decreases n - i,
        {
            proof {
                lemma_tap_path_snoc(s0, tms@.take(i as int), tms@[i as int]);
                assert(tms@.take(i + 1) =~= tms@.take(i as int).push(tms@[i as int]));
            }
            self.state_machine.consume(tms[i]);
            i = i + 1;
        }
        proof {
            assert(tms@.take(n as int) =~= tms@);
        }
    }

    /// Clock TDI bits (write-only); with `exit`, the last cycle also
    /// raises TMS, and the tracker advances by that one TMS=1 bit.
    pub fn raw_write_data(&mut self, tdi: &Vec<bool>, exit: bool)
        requires
            exit ==> tdi@.len() >= 1,
        ensures
            final(self).state_machine.state == if exit {
                tap_transition(old(self).state_machine.state, true)
            } else {
                old(self).state_machine.state
            },
            final(self).interface.trace() == old(self).interface.trace() + tdi_entries(
                tdi@,
                exit,
            ),
            final(self).interface.tdo_queue() == old(self).interface.tdo_queue(),
            final(self).idcodes == old(self).idcodes,
    {
        self.interface.write_data(tdi, exit);
        if exit {
            self.state_machine.consume(true);
        }
    }

    /// Clock TDI bits full-duplex, replacing the buffer with the TDO
    /// samples; tracker handling as in `raw_write_data`.
    pub fn raw_read_data(&mut self, tditdo: &mut Vec<bool>, exit: bool)
        requires
            exit ==> old(tditdo)@.len() >= 1,
        ensures
            final(self).state_machine.state == if exit {
                tap_transition(old(self).state_machine.state, true)
            } else {
                old(self).state_machine.state
            },
            final(tditdo)@ == take_pad(old(self).interface.tdo_queue(), old(tditdo)@.len()),
            final(self).interface.trace() == old(self).interface.trace() + tdi_entries(
                old(tditdo)@,
                exit,
            ),
            final(self).interface.tdo_queue() == old(self).interface.tdo_queue().skip(
                min_nat(old(tditdo)@.len(), old(self).interface.tdo_queue().len()) as int,
            ),
            final(self).idcodes == old(self).idcodes,
    {
        self.interface.read_data(tditdo, exit);
        if exit {
            self.state_machine.consume(true);
        }
    }

    /// Drive the TAP from its current state to `to` along the minimal
    /// supported TMS path; requesting Reset always re-emits five ones,
    /// any other same-state request is a no-op.
    pub fn change_state(&mut self, to: JtagState)
        requires
            path_supported(old(self).state_machine.state, to),
        ensures
            final(self).state_machine.state == to,
            final(self).interface.trace() == old(self).interface.trace() + tms_entries(
                change_tms(old(self).state_machine.state, to),
            ),
            final(self).interface.tdo_queue() == old(self).interface.tdo_queue(),
            final(self).idcodes == old(self).idcodes,
    {
        let ghost from0 = self.state_machine.state;
        let from = self.state_machine.state();
        let bits = tms_for_change(from, to);
        if bits.len() > 0 {
            self.write_tms(&bits);
        } else {
            proof {
                assert(old(self).interface.trace() + tms_entries(bits@)
                    =~= old(self).interface.trace());
            }
        }
        proof {
            lemma_change_tms_correct(from0, to);
        }
    }

    /// Move to Shift-IR (via Run-Test/Idle unless already close),
    /// clock the buffer's bits into the instruction register
    /// (optionally reversed in place, and restored afterwards), and
    /// return to Run-Test/Idle.
    pub fn write_ir(&mut self, ir_bitstream: &mut Vec<bool>, exit: bool, reverse: bool)
        requires
            exit ==> old(ir_bitstream)@.len() >= 1,
        ensures
            final(ir_bitstream)@ == old(ir_bitstream)@,
            final(self).state_machine.state == JtagState::RunIdle,
            final(self).interface.trace() == old(self).interface.trace() + tms_entries(
                shift_prefix(old(self).state_machine.state, JtagState::ShiftIR),
            ) + tdi_entries(
                (if reverse {
                    old(ir_bitstream)@.reverse()
                } else {
                    old(ir_bitstream)@
                }),
                exit,
            ) + tms_entries(
                change_tms(
                    (if exit {
                        JtagState::Exit1IR
                    } else {
                        JtagState::ShiftIR
                    }),
                    JtagState::RunIdle,
                ),
            ),
            final(self).interface.tdo_queue() == old(self).interface.tdo_queue(),
            final(self).idcodes == old(self).idcodes,
    {
        let ghost t0 = self.interface.trace();
        let ghost s0 = self.state_machine.state;
        match self.state_machine.state() {
            JtagState::Reset | JtagState::RunIdle | JtagState::ShiftIR => {
                self.change_state(JtagState::ShiftIR);
            },
            _ => {
                self.change_state(JtagState::RunIdle);
                self.change_state(JtagState::ShiftIR);
                proof {
                    lemma_tms_entries_append(
                        tms_to_runidle(s0),
                        change_tms(JtagState::RunIdle, JtagState::ShiftIR),
                    );
                    assert(self.interface.trace() =~= t0 + tms_entries(
                        shift_prefix(s0, JtagState::ShiftIR),
                    ));
                }
            },
        }
        if reverse {
            crate::bits::reverse_bits(ir_bitstream);
        }
        self.raw_write_data(ir_bitstream, exit);
        if reverse {
            crate::bits::reverse_bits(ir_bitstream);
            proof {
                assert(old(ir_bitstream)@.reverse().reverse() =~= old(ir_bitstream)@);
            }
        }
        self.change_state(JtagState::RunIdle);
    }

    /// Move to Shift-DR, clock the buffer full-duplex (inputs shifted
    /// in are replaced by the bits clocked out), and return to
    /// Run-Test/Idle. The buffer may be reversed before shifting and
    /// the result reversed after.
    pub fn read_write_dr(
        &mut self,
        data: &mut Vec<bool>,
        exit: bool,
        reverse_input: bool,
        reverse_output: bool,
    )
        requires
            exit ==> old(data)@.len() >= 1,
        ensures
            final(data)@ == (if reverse_output {
                take_pad(old(self).interface.tdo_queue(), old(data)@.len()).reverse()
            } else {
                take_pad(old(self).interface.tdo_queue(), old(data)@.len())
            }),
            final(self).state_machine.state == JtagState::RunIdle,
            final(self).interface.trace() == old(self).interface.trace() + tms_entries(
                shift_prefix(old(self).state_machine.state, JtagState::ShiftDR),
            ) + tdi_entries(
                (if reverse_input {
                    old(data)@.reverse()
                } else {
                    old(data)@
                }),
                exit,
            ) + tms_entries(
                change_tms(
                    (if exit {
                        JtagState::Exit1DR
                    } else {
                        JtagState::ShiftDR
                    }),
                    JtagState::RunIdle,
                ),
            ),
            final(self).interface.tdo_queue() == old(self).interface.tdo_queue().skip(
                min_nat(old(data)@.len(), old(self).interface.tdo_queue().len()) as int,
            ),
            final(self).idcodes == old(self).idcodes,
    {
        let ghost t0 = self.interface.trace();
        let ghost s0 = self.state_machine.state;
        match self.state_machine.state() {
            JtagState::Reset | JtagState::RunIdle | JtagState::ShiftDR => {
                self.change_state(JtagState::ShiftDR);
            },
            _ => {
                self.change_state(JtagState::RunIdle);
                self.change_state(JtagState::ShiftDR);
                proof {
                    lemma_tms_entries_append(
                        tms_to_runidle(s0),
                        change_tms(JtagState::RunIdle, JtagState::ShiftDR),
                    );
                    assert(self.interface.trace() =~= t0 + tms_entries(
                        shift_prefix(s0, JtagState::ShiftDR),
                    ));
                }
            },
        }
        if reverse_input {
            crate::bits::reverse_bits(data);
        }
        self.raw_read_data(data, exit);
        if reverse_output {
            crate::bits::reverse_bits(data);
        }
        self.change_state(JtagState::RunIdle);
    }

    /// The IDCODE auto-scan: from Test-Logic-Reset, shift 64 bits
    /// through the DR path (a 0xFF terminator word followed by
    /// zeros), and interpret the readback LSB-first into up to two
    /// recorded devices.
    pub fn scan(&mut self)
        ensures
            final(self).state_machine.state == JtagState::RunIdle,
            final(self).idcodes@ == idcode_scan_spec(
                take_pad(old(self).interface.tdo_queue(), 64),
            ),
            final(self).interface.tdo_queue() == old(self).interface.tdo_queue().skip(
                min_nat(64, old(self).interface.tdo_queue().len()) as int,
            ),
            final(self).interface.trace() == old(self).interface.trace() + scan_trace(),
    {
        self.change_state(JtagState::Reset);
        self.change_state(JtagState::ShiftDR);
        let mut data: Vec<bool> = Vec::new();
        push_bit_seq(&mut data, 0x0000_00ff, 32);
        push_bit_seq(&mut data, 0, 32);
        proof {
            crate::bits::lemma_bit_seq_len(0x0000_00ff, 32);
            crate::bits::lemma_bit_seq_len(0, 32);
            assert(data@ =~= bit_seq(0x0000_00ff, 32) + bit_seq(0, 32));
        }
        self.read_write_dr(&mut data, true, false, false);
        proof {
            assert(self.interface.trace() =~= old(self).interface.trace() + scan_trace());
        }
        let ghost ret = data@;
        let mut idcodes: Vec<Option<u32>> = Vec::new();
        idcodes.push(None);
        idcodes.push(None);
        let mut i: usize = 0;
        let mut count: usize = 0;
        proof {
            let total = scan_records(ret, TAP_DEVICE_MAX as nat);
            assert(ret.skip(0) =~= ret);
            assert(total.take(0) =~= Seq::<u32>::empty());
            assert(total =~= total.take(0) + scan_records(ret.skip(0), TAP_DEVICE_MAX as nat));
        }
        loop
            invariant
                i <= 64,
                count <= TAP_DEVICE_MAX,
                data@ == ret,
                ret.len() == 64,
                idcodes@.len() == TAP_DEVICE_MAX,
                scan_records(ret, TAP_DEVICE_MAX as nat) == scan_records(
                    ret,
                    TAP_DEVICE_MAX as nat,
                ).take(count as int) + scan_records(
                    ret.skip(i as int),
                    (TAP_DEVICE_MAX - count) as nat,
                ),
                scan_records(ret, TAP_DEVICE_MAX as nat).take(count as int).len() == count,
                forall|k: int|
                    0 <= k < count ==> idcodes@[k] == Some(
                        scan_records(ret, TAP_DEVICE_MAX as nat)[k],
                    ),
                forall|k: int| count <= k < TAP_DEVICE_MAX ==> idcodes@[k] == None::<u32>,
            ensures
                count <= TAP_DEVICE_MAX,
                data@ == ret,
                idcodes@.len() == TAP_DEVICE_MAX,
                scan_records(ret, TAP_DEVICE_MAX as nat) == scan_records(
                    ret,
                    TAP_DEVICE_MAX as nat,
                ).take(count as int),
                scan_records(ret, TAP_DEVICE_MAX as nat).take(count as int).len() == count,
                forall|k: int|
                    0 <= k < count ==> idcodes@[k] == Some(
                        scan_records(ret, TAP_DEVICE_MAX as nat)[k],
                    ),
                forall|k: int| count <= k < TAP_DEVICE_MAX ==> idcodes@[k] == None::<u32>,
            decreases 64 - i,
        {
            if i >= 64 || count >= TAP_DEVICE_MAX {
                proof {
                    let total = scan_records(ret, TAP_DEVICE_MAX as nat);
                    if i >= 64 {
                        assert(ret.skip(i as int).len() == 0);
                        assert(scan_records(ret.skip(i as int), (TAP_DEVICE_MAX - count) as nat)
                            =~= Seq::<u32>::empty());
                    } else {
                        assert(scan_records(ret.skip(i as int), (TAP_DEVICE_MAX - count) as nat)
                            =~= Seq::<u32>::empty());
                    }
                    assert(total =~= total.take(count as int));
                }
                break ;
            }
            let ghost rest = ret.skip(i as int);
            let ghost room = (TAP_DEVICE_MAX - count) as nat;
            proof {
                assert(rest.len() == 64 - i);
                assert(rest[0] == ret[i as int]);
            }
            if data[i] {
                if i + 32 <= 64 {
                    let idcode = window_val(&data, i, 32);
                    proof {
                        assert(rest.take(32) =~= ret.subrange(i as int, i + 32));
                        crate::bits::lemma_bits_val_bound(rest.take(32));
                        vstd::arithmetic::power2::lemma2_to64();
                    }
                    if idcode == 0x0000_00ff {
                        proof {
                            assert(scan_records(rest, room) =~= Seq::<u32>::empty());
                            let total = scan_records(ret, TAP_DEVICE_MAX as nat);
                            assert(total =~= total.take(count as int));
                        }
                        break ;
                    }
                    proof {
                        assert(rest.skip(32) =~= ret.skip(i + 32));
                        assert(scan_records(rest, room) == seq![idcode] + scan_records(
                            ret.skip(i + 32),
                            (room - 1) as nat,
                        ));
                        lemma_take_one_more(ret, count as int, idcode, i + 32, room);
                    }
                    idcodes[count] = Some(idcode);
                    count = count + 1;
                    i = i + 32;
                } else {
                    proof {
                        assert(scan_records(rest, room) =~= Seq::<u32>::empty());
                        let total = scan_records(ret, TAP_DEVICE_MAX as nat);
                        assert(total =~= total.take(count as int));
                    }
                    break ;
                }
            } else {
                proof {
                    assert(rest.skip(1) =~= ret.skip(i + 1));
                    assert(scan_records(rest, room) == seq![0u32] + scan_records(
                        ret.skip(i + 1),
                        (room - 1) as nat,
                    ));
                    lemma_take_one_more(ret, count as int, 0u32, i + 1, room);
                }
                idcodes[count] = Some(0);
                count = count + 1;
                i = i + 1;
            }
        }
        self.idcodes = idcodes;
        proof {
            let total = scan_records(ret, TAP_DEVICE_MAX as nat);
            assert(total.len() == count);
            assert(self.idcodes@ =~= idcode_scan_spec(ret));
            assert(ret == take_pad(old(self).interface.tdo_queue(), 64));
        }
    }

    /// Drive only the state tracker (not the adapter) to `to`: first
    /// five TMS=1 bits to Reset, then the route read off the diagram.
    /// A test helper.
    #[verifier::rlimit(60)]
    pub fn debug_set_state(&mut self, to: JtagState)
        ensures
            final(self).state_machine.state == to,
            final(self).interface == old(self).interface,
            final(self).idcodes == old(self).idcodes,
    {
        self.state_machine.consume(true);
        self.state_machine.consume(true);
        self.state_machine.consume(true);
        self.state_machine.consume(true);
        self.state_machine.consume(true);
        assert(self.state_machine.state == JtagState::Reset);
        match to {
            JtagState::Reset => {
                self.state_machine.consume(true);
            },
            JtagState::RunIdle => {
                self.state_machine.consume(false);
            },
            JtagState::SelectDRScan => {
                self.state_machine.consume(false);
                self.state_machine.consume(true);
            },
            JtagState::CaptureDR => {
                self.state_machine.consume(false);
                self.state_machine.consume(true);
                self.state_machine.consume(false);
            },
            JtagState::ShiftDR => {
                self.state_machine.consume(false);
                self.state_machine.consume(true);
                self.state_machine.consume(false);
                self.state_machine.consume(false);
            },
            JtagState::Exit1DR => {
                self.state_machine.consume(false);
                self.state_machine.consume(true);
                self.state_machine.consume(false);
                self.state_machine.consume(true);
            },
            JtagState::PauseDR => {
                self.state_machine.consume(false);
                self.state_machine.consume(true);
                self.state_machine.consume(false);
                self.state_machine.consume(true);
                self.state_machine.consume(false);
            },
            JtagState::Exit2DR => {
                self.state_machine.consume(false);
                self.state_machine.consume(true);
                self.state_machine.consume(false);
                self.state_machine.consume(true);
                self.state_machine.consume(false);
                self.state_machine.consume(true);
            },
            JtagState::UpdateDR => {
                self.state_machine.consume(false);
                self.state_machine.consume(true);
                self.state_machine.consume(false);
                self.state_machine.consume(true);
                self.state_machine.consume(true);
            },
            JtagState::SelectIRScan => {
                self.state_machine.consume(false);
                self.state_machine.consume(true);
                self.state_machine.consume(true);
            },
            JtagState::CaptureIR => {
                self.state_machine.consume(false);
                self.state_machine.consume(true);
                self.state_machine.consume(true);
                self.state_machine.consume(false);
            },
            JtagState::ShiftIR => {
                self.state_machine.consume(false);
                self.state_machine.consume(true);
                self.state_machine.consume(true);
                self.state_machine.consume(false);
                self.state_machine.consume(false);
            },
            JtagState::Exit1IR => {
                self.state_machine.consume(false);
                self.state_machine.consume(true);
                self.state_machine.consume(true);
                self.state_machine.consume(false);
                self.state_machine.consume(true);
            },
            JtagState::PauseIR => {
                self.state_machine.consume(false);
                self.state_machine.consume(true);
                self.state_machine.consume(true);
                self.state_machine.consume(false);
                self.state_machine.consume(true);
                self.state_machine.consume(false);
            },
            JtagState::Exit2IR => {
                self.state_machine.consume(false);
                self.state_machine.consume(true);
                self.state_machine.consume(true);
                self.state_machine.consume(false);
                self.state_machine.consume(true);
                self.state_machine.consume(false);
                self.state_machine.consume(true);
            },
            JtagState::UpdateIR => {
                self.state_machine.consume(false);
                self.state_machine.consume(true);
                self.state_machine.consume(true);
                self.state_machine.consume(false);
                self.state_machine.consume(true);
                self.state_machine.consume(true);
            },
        }
    }
}

/// Helper for the scan loop: recording one more device extends the
/// taken prefix of the records by that device's value.
proof fn lemma_take_one_more(ret: Seq<bool>, count: int, v: u32, nexti: int, room: nat)
    requires
        0 <= count,
        room == TAP_DEVICE_MAX - count,
        room >= 1,
        0 <= nexti <= ret.len(),
        scan_records(ret, TAP_DEVICE_MAX as nat) == scan_records(ret, TAP_DEVICE_MAX as nat).take(
            count,
        ) + (seq![v] + scan_records(ret.skip(nexti), (room - 1) as nat)),
        scan_records(ret, TAP_DEVICE_MAX as nat).take(count).len() == count,
    ensures
        scan_records(ret, TAP_DEVICE_MAX as nat)[count] == v,
        scan_records(ret, TAP_DEVICE_MAX as nat).take(count + 1).len() == count + 1,
        scan_records(ret, TAP_DEVICE_MAX as nat) == scan_records(ret, TAP_DEVICE_MAX as nat).take(
            count + 1,
        ) + scan_records(ret.skip(nexti), (room - 1) as nat),
{
    let total = scan_records(ret, TAP_DEVICE_MAX as nat);
    assert(total[count] == (seq![v] + scan_records(ret.skip(nexti), (room - 1) as nat))[0]);
    assert(total.take(count + 1) =~= total.take(count) + seq![v]);
    assert(total =~= total.take(count + 1) + scan_records(ret.skip(nexti), (room - 1) as nat));
}

/// A scoped handle onto a JTAG core for one TAP with an instruction
/// register of `ir_len` bits (1 to 8). Dropping the handle forces the
/// chain back to Test-Logic-Reset. `ops` records the DP/AP accesses
/// issued through the handle and `resps` the (ack, data) pair each
/// of them answered.
pub struct TAP<T: JtagInterface> {
    pub jtag: Jtag<T>,
    pub ir_len: usize,
    pub ops: Vec<DapOp>,
    pub resps: Vec<(u8, u32)>,
}

impl<T: JtagInterface> TAP<T> {
    /// Wrap a core, fixing the instruction register length.
    pub fn new(jtag: Jtag<T>, ir_len: usize) -> (r: TAP<T>)
        requires
            1 <= ir_len <= 8,
        ensures
            r.jtag == jtag,
            r.ir_len == ir_len,
            r.ops@ == Seq::<DapOp>::empty(),
            r.resps@ == Seq::<(u8, u32)>::empty(),
    {
        TAP { jtag, ir_len, ops: Vec::new(), resps: Vec::new() }
    }

    /// Shift `instruction` into the IR: exactly `ir_len` TDI bits are
    /// clocked during Shift-IR, least-significant bit first, so the
    /// value seen by the TAP is the low `ir_len` bits of
    /// `instruction`.
    pub fn write_instruction(&mut self, instruction: u8)
        requires
            1 <= old(self).ir_len <= 8,
        ensures
            final(self).jtag.state_machine.state == JtagState::RunIdle,
            final(self).jtag.interface.trace() == old(self).jtag.interface.trace() + tms_entries(
                shift_prefix(old(self).jtag.state_machine.state, JtagState::ShiftIR),
            ) + tdi_entries(bit_seq(instruction as u32, old(self).ir_len as nat), true)
                + tms_entries(change_tms(JtagState::Exit1IR, JtagState::RunIdle)),
            final(self).jtag.interface.tdo_queue() == old(self).jtag.interface.tdo_queue(),
            final(self).jtag.idcodes == old(self).jtag.idcodes,
            final(self).ir_len == old(self).ir_len,
            final(self).ops == old(self).ops,
            final(self).resps == old(self).resps,
    {
        let mut ir: Vec<bool> = Vec::new();
        push_bit_seq(&mut ir, instruction as u32, self.ir_len);
        proof {
            crate::bits::lemma_bit_seq_len(instruction as u32, self.ir_len as nat);
        }
        self.jtag.write_ir(&mut ir, true, false);
    }

    /// Shift a DR full-duplex through the shared core.
    pub fn read_write_dr(
        &mut self,
        data: &mut Vec<bool>,
        exit: bool,
        reverse_input: bool,
        reverse_output: bool,
    )
        requires
            exit ==> old(data)@.len() >= 1,
        ensures
            final(data)@ == (if reverse_output {
                take_pad(old(self).jtag.interface.tdo_queue(), old(data)@.len()).reverse()
            } else {
                take_pad(old(self).jtag.interface.tdo_queue(), old(data)@.len())
            }),
            final(self).jtag.state_machine.state == JtagState::RunIdle,
            final(self).jtag.interface.trace() == old(self).jtag.interface.trace() + tms_entries(
                shift_prefix(old(self).jtag.state_machine.state, JtagState::ShiftDR),
            ) + tdi_entries(
                (if reverse_input {
                    old(data)@.reverse()
                } else {
                    old(data)@
                }),
                exit,
            ) + tms_entries(
                change_tms(
                    (if exit {
                        JtagState::Exit1DR
                    } else {
                        JtagState::ShiftDR
                    }),
                    JtagState::RunIdle,
                ),
            ),
            final(self).jtag.interface.tdo_queue() == old(self).jtag.interface.tdo_queue().skip(
                min_nat(old(data)@.len(), old(self).jtag.interface.tdo_queue().len()) as int,
            ),
            final(self).jtag.idcodes == old(self).jtag.idcodes,
            final(self).ir_len == old(self).ir_len,
            final(self).ops == old(self).ops,
            final(self).resps == old(self).resps,
    {
        self.jtag.read_write_dr(data, exit, reverse_input, reverse_output);
    }
}

impl<T: JtagInterface> TAP<T> {
    /// Guaranteed cleanup when the handle is finished with: force the
    /// chain back to Test-Logic-Reset, whatever state an operation
    /// left it in, and hand the core back.
    pub fn release(self) -> (r: Jtag<T>)
        ensures
            r.state_machine.state == JtagState::Reset,
            r.interface.trace() == self.jtag.interface.trace() + tms_entries(
                change_tms(self.jtag.state_machine.state, JtagState::Reset),
            ),
            r.interface.tdo_queue() == self.jtag.interface.tdo_queue(),
            r.idcodes == self.jtag.idcodes,
    {
        let mut jtag = self.jtag;
        jtag.change_state(JtagState::Reset);
        jtag
    }
}

/// The TMS bits `change_state` emits, as an executable vector.
pub fn tms_for_change(from: JtagState, to: JtagState) -> (r: Vec<bool>)
    requires
        path_supported(from, to),
    ensures
        r@ == change_tms(from, to),
{
    if from == to && to != JtagState::Reset {
        let r: Vec<bool> = Vec::new();
        assert(r@ =~= change_tms(from, to));
        r
    } else if to == JtagState::Reset {
        let r: Vec<bool> = vec![true, true, true, true, true];
        assert(r@ =~= change_tms(from, to));
        r
    } else if from == JtagState::Reset {
        let r: Vec<bool> = match to {
            JtagState::RunIdle => vec![false],
            JtagState::CaptureDR => vec![false, true, false],
            JtagState::ShiftDR => vec![false, true, false, false],
            JtagState::CaptureIR => vec![false, true, true, false],
            JtagState::ShiftIR => vec![false, true, true, false, false],
            _ => {
                proof {
                    assert(false);
                }
                Vec::new()
            },
        };
        assert(r@ =~= change_tms(from, to));
        r
    } else if to == JtagState::RunIdle {
        let r: Vec<bool> = match from {
            JtagState::SelectDRScan => vec![false, true, true, false],
            JtagState::SelectIRScan => vec![false, true, true, false],
            JtagState::CaptureDR => vec![true, true, false],
            JtagState::CaptureIR => vec![true, true, false],
            JtagState::ShiftDR => vec![true, true, false],
            JtagState::ShiftIR => vec![true, true, false],
            JtagState::Exit1DR => vec![true, false],
            JtagState::Exit1IR => vec![true, false],
            JtagState::PauseDR => vec![true, true, false],
            JtagState::PauseIR => vec![true, true, false],
            JtagState::Exit2DR => vec![true, false],
            JtagState::Exit2IR => vec![true, false],
            JtagState::UpdateDR => vec![false],
            JtagState::UpdateIR => vec![false],
            _ => {
                proof {
                    assert(false);
                }
                Vec::new()
            },
        };
        assert(r@ =~= change_tms(from, to));
        r
    } else if from == JtagState::RunIdle {
        let r: Vec<bool> = match to {
            JtagState::CaptureDR => vec![true, false],
            JtagState::ShiftDR => vec![true, false, false],
            JtagState::CaptureIR => vec![true, true, false],
            JtagState::ShiftIR => vec![true, true, false, false],
            _ => {
                proof {
                    assert(false);
                }
                Vec::new()
            },
        };
        assert(r@ =~= change_tms(from, to));
        r
    } else {
        let r: Vec<bool> = vec![true];
        assert(r@ =~= change_tms(from, to));
        r
    }
}

} // verus!
