use openblt::state::BootloaderState::{Entry, Error, Idle, Programming, UserProgramActive};
use openblt::state::{BootloaderState, Conditions, StateMachine};

fn conditions(
    backdoor: bool,
    application_valid: bool,
    command_received: bool,
    hardware_failure: bool,
) -> Conditions {
    Conditions { backdoor, application_valid, command_received, hardware_failure }
}

fn machine_in(state: BootloaderState) -> StateMachine {
    let mut machine = StateMachine::new();
    match state {
        BootloaderState::Entry => {}
        BootloaderState::Idle => machine.transition_to(BootloaderState::Idle),
        BootloaderState::Programming => {
            machine.transition_to(BootloaderState::Idle);
            machine.transition_to(BootloaderState::Programming);
        }
        BootloaderState::UserProgramActive => {
            machine.transition_to(BootloaderState::UserProgramActive)
        }
        BootloaderState::Error => machine.transition_to(BootloaderState::Error),
    }
    assert_eq!(machine.current_state(), state);
    machine
}

const ALL_STATES: [BootloaderState; 5] = [
    BootloaderState::Entry,
    BootloaderState::Idle,
    BootloaderState::Programming,
    BootloaderState::UserProgramActive,
    BootloaderState::Error,
];

#[test]
fn machine_starts_in_entry() {
    let machine = StateMachine::new();
    assert_eq!(machine.current_state(), BootloaderState::Entry);
    assert!(machine.is_backdoor_open());
    assert!(!machine.is_checksum_valid());
    assert_eq!(machine.get_backdoor_timeout(), 500);
}

#[test]
fn entry_without_backdoor_and_image_goes_to_error() {
    let mut machine = StateMachine::new();
    assert!(!machine.advance(conditions(false, false, false, false)));
    assert_eq!(machine.current_state(), BootloaderState::Error);
    assert!(!machine.is_checksum_valid());
}

#[test]
fn entry_with_backdoor_goes_to_idle_whatever_the_image() {
    for application_valid in [false, true] {
        let mut machine = StateMachine::new();
        assert!(!machine.advance(conditions(true, application_valid, false, false)));
        assert_eq!(machine.current_state(), BootloaderState::Idle);
    }
}

#[test]
fn entry_with_valid_image_starts_the_application() {
    let mut machine = StateMachine::new();
    assert!(machine.advance(conditions(false, true, false, false)));
    assert_eq!(machine.current_state(), BootloaderState::UserProgramActive);
    assert!(machine.is_checksum_valid());
}

#[test]
fn idle_goes_to_programming_on_a_command() {
    let mut machine = machine_in(BootloaderState::Idle);
    assert!(!machine.advance(conditions(false, false, false, false)));
    assert_eq!(machine.current_state(), BootloaderState::Idle);
    assert!(!machine.advance(conditions(false, true, true, false)));
    assert_eq!(machine.current_state(), BootloaderState::Programming);
}

#[test]
fn failures_lead_to_error() {
    for state in [BootloaderState::Idle, BootloaderState::Programming] {
        let mut machine = machine_in(state);
        assert!(!machine.advance(conditions(false, false, true, true)));
        assert_eq!(machine.current_state(), BootloaderState::Error);
    }
}

#[test]
fn programming_stays_until_a_failure() {
    let mut machine = machine_in(BootloaderState::Programming);
    assert!(!machine.advance(conditions(true, true, true, false)));
    assert_eq!(machine.current_state(), BootloaderState::Programming);
}

#[test]
fn error_waits_for_the_backdoor() {
    let mut machine = machine_in(BootloaderState::Error);
    assert!(!machine.advance(conditions(false, true, true, false)));
    assert_eq!(machine.current_state(), BootloaderState::Error);
    assert!(!machine.advance(conditions(true, false, false, false)));
    assert_eq!(machine.current_state(), BootloaderState::Idle);
}

#[test]
fn user_program_active_is_final() {
    for backdoor in [false, true] {
        for failure in [false, true] {
            let mut machine = machine_in(BootloaderState::UserProgramActive);
            assert!(!machine.advance(conditions(backdoor, true, true, failure)));
            assert_eq!(machine.current_state(), BootloaderState::UserProgramActive);
        }
    }
    for target in ALL_STATES {
        let mut machine = machine_in(BootloaderState::UserProgramActive);
        machine.transition_to(target);
        assert_eq!(machine.current_state(), BootloaderState::UserProgramActive);
    }
}

#[test]
fn transition_to_follows_the_table() {
    let permitted = [
        (Entry, Idle),
        (Entry, UserProgramActive),
        (Entry, Error),
        (Idle, Programming),
        (Idle, Error),
        (Programming, Error),
        (Error, Idle),
    ];
    for from in ALL_STATES {
        for to in ALL_STATES {
            let mut machine = machine_in(from);
            machine.transition_to(to);
            let expected = if from == to || permitted.contains(&(from, to)) { to } else { from };
            assert_eq!(machine.current_state(), expected);
        }
    }
}

#[test]
fn backdoor_is_open_in_entry_and_idle() {
    assert!(machine_in(BootloaderState::Entry).is_backdoor_open());
    assert!(machine_in(BootloaderState::Idle).is_backdoor_open());
    assert!(!machine_in(BootloaderState::Programming).is_backdoor_open());
    assert!(!machine_in(BootloaderState::UserProgramActive).is_backdoor_open());
    assert!(!machine_in(BootloaderState::Error).is_backdoor_open());
}

#[test]
fn checksum_flag_is_kept() {
    let mut machine = StateMachine::new();
    machine.set_checksum_valid(true);
    assert!(machine.is_checksum_valid());
    assert_eq!(machine.current_state(), BootloaderState::Entry);
    machine.set_checksum_valid(false);
    assert!(!machine.is_checksum_valid());
}
