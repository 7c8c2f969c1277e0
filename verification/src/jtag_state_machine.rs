//! The 16-state IEEE 1149.1 TAP controller, as a pure transition
//! function driven by single TMS bits, together with the executable
//! state machine that the JTAG core keeps in lockstep with the bits it
//! clocks out.

use vstd::prelude::*;

verus! {

/// The sixteen states of the standard TAP controller.
#[derive(Clone, Copy, Debug, PartialEq, Eq, Structural)]
pub enum JtagState {
    Reset,
    RunIdle,
    SelectDRScan,
    CaptureDR,
    ShiftDR,
    Exit1DR,
    PauseDR,
    Exit2DR,
    UpdateDR,
    SelectIRScan,
    CaptureIR,
    ShiftIR,
    Exit1IR,
    PauseIR,
    Exit2IR,
    UpdateIR,
}

/// The transition function of the standard TAP state diagram, indexed
/// by one TMS bit.
pub open spec fn tap_transition(state: JtagState, tms: bool) -> JtagState {
    match (state, tms) {
        (JtagState::Reset, true) => JtagState::Reset,
        (JtagState::Reset, false) => JtagState::RunIdle,

        (JtagState::RunIdle, true) => JtagState::SelectDRScan,
        (JtagState::RunIdle, false) => JtagState::RunIdle,

        (JtagState::SelectDRScan, true) => JtagState::SelectIRScan,
        (JtagState::SelectDRScan, false) => JtagState::CaptureDR,
        (JtagState::CaptureDR, true) => JtagState::Exit1DR,
        (JtagState::CaptureDR, false) => JtagState::ShiftDR,
        (JtagState::ShiftDR, true) => JtagState::Exit1DR,
        (JtagState::ShiftDR, false) => JtagState::ShiftDR,
        (JtagState::Exit1DR, true) => JtagState::UpdateDR,
        (JtagState::Exit1DR, false) => JtagState::PauseDR,
        (JtagState::PauseDR, true) => JtagState::Exit2DR,
        (JtagState::PauseDR, false) => JtagState::PauseDR,
        (JtagState::Exit2DR, true) => JtagState::UpdateDR,
        (JtagState::Exit2DR, false) => JtagState::ShiftDR,
        (JtagState::UpdateDR, true) => JtagState::SelectDRScan,
        (JtagState::UpdateDR, false) => JtagState::RunIdle,

        (JtagState::SelectIRScan, true) => JtagState::Reset,
        (JtagState::SelectIRScan, false) => JtagState::CaptureIR,
        (JtagState::CaptureIR, true) => JtagState::Exit1IR,
        (JtagState::CaptureIR, false) => JtagState::ShiftIR,
        (JtagState::ShiftIR, true) => JtagState::Exit1IR,
        (JtagState::ShiftIR, false) => JtagState::ShiftIR,
        (JtagState::Exit1IR, true) => JtagState::UpdateIR,
        (JtagState::Exit1IR, false) => JtagState::PauseIR,
        (JtagState::PauseIR, true) => JtagState::Exit2IR,
        (JtagState::PauseIR, false) => JtagState::PauseIR,
        (JtagState::Exit2IR, true) => JtagState::UpdateIR,
        (JtagState::Exit2IR, false) => JtagState::ShiftIR,
        (JtagState::UpdateIR, true) => JtagState::SelectIRScan,
        (JtagState::UpdateIR, false) => JtagState::RunIdle,
    }
}

/// The state reached from `state` after clocking every bit of `tms`
/// in order.
pub open spec fn tap_path(state: JtagState, tms: Seq<bool>) -> JtagState
    decreases tms.len(),
{
    if tms.len() == 0 {
        state
    } else {
        tap_path(tap_transition(state, tms[0]), tms.skip(1))
    }
}

/// `tap_path` distributes over concatenation of TMS sequences.
pub proof fn lemma_tap_path_append(state: JtagState, a: Seq<bool>, b: Seq<bool>)
    ensures
        tap_path(state, a + b) == tap_path(tap_path(state, a), b),
    decreases a.len(),
{
    if a.len() == 0 {
        assert(a + b =~= b);
    } else {
        assert((a + b).skip(1) =~= a.skip(1) + b);
        lemma_tap_path_append(tap_transition(state, a[0]), a.skip(1), b);
    }
}

/// Appending one bit to a TMS path takes one more transition.
pub proof fn lemma_tap_path_snoc(state: JtagState, a: Seq<bool>, b: bool)
    ensures
        tap_path(state, a.push(b)) == tap_transition(tap_path(state, a), b),
{
    assert(a.push(b) =~= a + seq![b]);
    lemma_tap_path_append(state, a, seq![b]);
    lemma_tap_path1(tap_path(state, a), b);
}

/// `tap_path` on a singleton is one transition.
pub proof fn lemma_tap_path1(s: JtagState, b0: bool)
    ensures
        tap_path(s, seq![b0]) == tap_transition(s, b0),
{
    assert(seq![b0].skip(1) =~= Seq::<bool>::empty());
    assert(tap_path(tap_transition(s, b0), Seq::<bool>::empty()) == tap_transition(s, b0));
}

/// `tap_path` on two bits, written out.
pub proof fn lemma_tap_path2(s: JtagState, b0: bool, b1: bool)
    ensures
        tap_path(s, seq![b0, b1]) == tap_transition(tap_transition(s, b0), b1),
{
    assert(seq![b0, b1].skip(1) =~= seq![b1]);
    lemma_tap_path1(tap_transition(s, b0), b1);
}

/// `tap_path` on three bits, written out.
pub proof fn lemma_tap_path3(s: JtagState, b0: bool, b1: bool, b2: bool)
    ensures
        tap_path(s, seq![b0, b1, b2]) == tap_transition(
            tap_transition(tap_transition(s, b0), b1),
            b2,
        ),
{
    assert(seq![b0, b1, b2].skip(1) =~= seq![b1, b2]);
    lemma_tap_path2(tap_transition(s, b0), b1, b2);
}

/// `tap_path` on four bits, written out.
pub proof fn lemma_tap_path4(s: JtagState, b0: bool, b1: bool, b2: bool, b3: bool)
    ensures
        tap_path(s, seq![b0, b1, b2, b3]) == tap_transition(
            tap_transition(tap_transition(tap_transition(s, b0), b1), b2),
            b3,
        ),
{
    assert(seq![b0, b1, b2, b3].skip(1) =~= seq![b1, b2, b3]);
    lemma_tap_path3(tap_transition(s, b0), b1, b2, b3);
}

/// Five consecutive TMS=1 cycles reach Reset from every state: the
/// Reset state is absorbing for the all-ones sequence.
pub proof fn lemma_reset_absorbing(state: JtagState)
    ensures
        tap_path(state, seq![true, true, true, true, true]) == JtagState::Reset,
{
    let ones = seq![true, true, true, true, true];
    let s1 = tap_transition(state, true);
    let s2 = tap_transition(s1, true);
    let s3 = tap_transition(s2, true);
    let s4 = tap_transition(s3, true);
    assert(ones.skip(1) =~= seq![true, true, true, true]);
    assert(seq![true, true, true, true].skip(1) =~= seq![true, true, true]);
    assert(seq![true, true, true].skip(1) =~= seq![true, true]);
    assert(seq![true, true].skip(1) =~= seq![true]);
    assert(seq![true].skip(1) =~= Seq::<bool>::empty());
    assert(tap_path(state, ones) == tap_path(s1, seq![true, true, true, true]));
    assert(tap_path(s1, seq![true, true, true, true]) == tap_path(s2, seq![true, true, true]));
    assert(tap_path(s2, seq![true, true, true]) == tap_path(s3, seq![true, true]));
    assert(tap_path(s3, seq![true, true]) == tap_path(s4, seq![true]));
    assert(tap_path(s4, seq![true]) == tap_path(tap_transition(s4, true), Seq::<bool>::empty()));
}

/// The executable TAP state tracker. Its only mutation path is
/// `consume`, which advances by exactly one TMS bit.
pub struct JtagStateMachine {
    pub state: JtagState,
}

impl JtagStateMachine {
    /// A fresh machine starts in Reset, as a TAP does after
    /// Test-Logic-Reset.
    pub fn new() -> (r: JtagStateMachine)
        ensures
            r.state == JtagState::Reset,
    {
        JtagStateMachine { state: JtagState::Reset }
    }

    /// The current state.
    pub fn state(&self) -> (r: JtagState)
        ensures
            r == self.state,
    {
        self.state
    }

    /// Advance by one TMS bit, exactly as the standard diagram does.
    pub fn consume(&mut self, tms: bool)
        ensures
            final(self).state == tap_transition(old(self).state, tms),
    {
        let next = match (self.state, tms) {
            (JtagState::Reset, true) => JtagState::Reset,
            (JtagState::Reset, false) => JtagState::RunIdle,

            (JtagState::RunIdle, true) => JtagState::SelectDRScan,
            (JtagState::RunIdle, false) => JtagState::RunIdle,

            (JtagState::SelectDRScan, true) => JtagState::SelectIRScan,
            (JtagState::SelectDRScan, false) => JtagState::CaptureDR,
            (JtagState::CaptureDR, true) => JtagState::Exit1DR,
            (JtagState::CaptureDR, false) => JtagState::ShiftDR,
            (JtagState::ShiftDR, true) => JtagState::Exit1DR,
            (JtagState::ShiftDR, false) => JtagState::ShiftDR,
            (JtagState::Exit1DR, true) => JtagState::UpdateDR,
            (JtagState::Exit1DR, false) => JtagState::PauseDR,
            (JtagState::PauseDR, true) => JtagState::Exit2DR,
            (JtagState::PauseDR, false) => JtagState::PauseDR,
            (JtagState::Exit2DR, true) => JtagState::UpdateDR,
            (JtagState::Exit2DR, false) => JtagState::ShiftDR,
            (JtagState::UpdateDR, true) => JtagState::SelectDRScan,
            (JtagState::UpdateDR, false) => JtagState::RunIdle,

            (JtagState::SelectIRScan, true) => JtagState::Reset,
            (JtagState::SelectIRScan, false) => JtagState::CaptureIR,
            (JtagState::CaptureIR, true) => JtagState::Exit1IR,
            (JtagState::CaptureIR, false) => JtagState::ShiftIR,
            (JtagState::ShiftIR, true) => JtagState::Exit1IR,
            (JtagState::ShiftIR, false) => JtagState::ShiftIR,
            (JtagState::Exit1IR, true) => JtagState::UpdateIR,
            (JtagState::Exit1IR, false) => JtagState::PauseIR,
            (JtagState::PauseIR, true) => JtagState::Exit2IR,
            (JtagState::PauseIR, false) => JtagState::PauseIR,
            (JtagState::Exit2IR, true) => JtagState::UpdateIR,
            (JtagState::Exit2IR, false) => JtagState::ShiftIR,
            (JtagState::UpdateIR, true) => JtagState::SelectIRScan,
            (JtagState::UpdateIR, false) => JtagState::RunIdle,
        };
        self.state = next;
    }
}

} // verus!
