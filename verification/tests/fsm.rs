use libjtag::jtag_state_machine::{JtagState, JtagStateMachine};

#[test]
fn test() {
    let mut machine: JtagStateMachine = JtagStateMachine::new();
    machine.consume(false);
    println!("{:?}", machine.state());
    assert_eq!(JtagState::RunIdle, machine.state());
}

const ALL_STATES: [JtagState; 16] = [
    JtagState::Reset,
    JtagState::RunIdle,
    JtagState::SelectDRScan,
    JtagState::CaptureDR,
    JtagState::ShiftDR,
    JtagState::Exit1DR,
    JtagState::PauseDR,
    JtagState::Exit2DR,
    JtagState::UpdateDR,
    JtagState::SelectIRScan,
    JtagState::CaptureIR,
    JtagState::ShiftIR,
    JtagState::Exit1IR,
    JtagState::PauseIR,
    JtagState::Exit2IR,
    JtagState::UpdateIR,
];

fn drive_to(machine: &mut JtagStateMachine, to: JtagState) {
    for _ in 0..5 {
        machine.consume(true);
    }
    let route: &[bool] = match to {
        JtagState::Reset => &[true],
        JtagState::RunIdle => &[false],
        JtagState::SelectDRScan => &[false, true],
        JtagState::CaptureDR => &[false, true, false],
        JtagState::ShiftDR => &[false, true, false, false],
        JtagState::Exit1DR => &[false, true, false, true],
        JtagState::PauseDR => &[false, true, false, true, false],
        JtagState::Exit2DR => &[false, true, false, true, false, true],
        JtagState::UpdateDR => &[false, true, false, true, true],
        JtagState::SelectIRScan => &[false, true, true],
        JtagState::CaptureIR => &[false, true, true, false],
        JtagState::ShiftIR => &[false, true, true, false, false],
        JtagState::Exit1IR => &[false, true, true, false, true],
        JtagState::PauseIR => &[false, true, true, false, true, false],
        JtagState::Exit2IR => &[false, true, true, false, true, false, true],
        JtagState::UpdateIR => &[false, true, true, false, true, true],
    };
    for b in route {
        machine.consume(*b);
    }
}

#[test]
fn reset_is_absorbing_from_every_state() {
    for s in ALL_STATES {
        let mut machine = JtagStateMachine::new();
        drive_to(&mut machine, s);
        assert_eq!(s, machine.state());
        for _ in 0..5 {
            machine.consume(true);
        }
        assert_eq!(JtagState::Reset, machine.state());
    }
}

#[test]
fn transition_table_spot_checks() {
    let mut machine = JtagStateMachine::new();
    machine.consume(true);
    assert_eq!(JtagState::Reset, machine.state());
    machine.consume(false);
    assert_eq!(JtagState::RunIdle, machine.state());
    machine.consume(true);
    assert_eq!(JtagState::SelectDRScan, machine.state());
    machine.consume(false);
    assert_eq!(JtagState::CaptureDR, machine.state());
    machine.consume(false);
    assert_eq!(JtagState::ShiftDR, machine.state());
    machine.consume(true);
    assert_eq!(JtagState::Exit1DR, machine.state());
    machine.consume(false);
    assert_eq!(JtagState::PauseDR, machine.state());
    machine.consume(true);
    assert_eq!(JtagState::Exit2DR, machine.state());
    machine.consume(true);
    assert_eq!(JtagState::UpdateDR, machine.state());
    machine.consume(true);
    assert_eq!(JtagState::SelectDRScan, machine.state());
    machine.consume(true);
    assert_eq!(JtagState::SelectIRScan, machine.state());
    machine.consume(false);
    assert_eq!(JtagState::CaptureIR, machine.state());
    machine.consume(false);
    assert_eq!(JtagState::ShiftIR, machine.state());
    machine.consume(true);
    assert_eq!(JtagState::Exit1IR, machine.state());
    machine.consume(false);
    assert_eq!(JtagState::PauseIR, machine.state());
    machine.consume(true);
    assert_eq!(JtagState::Exit2IR, machine.state());
    machine.consume(true);
    assert_eq!(JtagState::UpdateIR, machine.state());
    machine.consume(true);
    assert_eq!(JtagState::SelectIRScan, machine.state());
    machine.consume(true);
    assert_eq!(JtagState::Reset, machine.state());
}
