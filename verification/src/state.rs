//! The life cycle of the bootloader: where it stands, and where what it
//! observes takes it.

use vstd::prelude::*;

verus! {

/// How long the backdoor stays open after reset unless told otherwise, in
/// milliseconds.
pub const DEFAULT_BACKDOOR_TIMEOUT_MS: u32 = 500;

/// Where the bootloader stands.
#[derive(Debug, Clone, Copy, PartialEq, Eq, Structural)]
pub enum BootloaderState {
    /// Just after reset.
    Entry,
    /// Waiting for a command.
    Idle,
    /// Serving commands.
    Programming,
    /// Control has gone to the application.
    UserProgramActive,
    /// Something failed; waiting to be asked in again.
    Error,
}

/// What one poll of the surroundings found.
#[derive(Debug, Clone, Copy, PartialEq, Eq, Structural)]
pub struct Conditions {
    /// The entry pin is active, or a programming request is on the bus.
    pub backdoor: bool,
    /// The application region holds an image that can be run.
    pub application_valid: bool,
    /// A frame with a recognized command has arrived.
    pub command_received: bool,
    /// A lower layer has reported a failure of the hardware.
    pub hardware_failure: bool,
}

/// Where `conditions` take the bootloader from `state`.
///
/// After reset the backdoor comes first: the application runs only where no
/// backdoor condition holds and the image is valid. Once control has gone to
/// the application nothing brings it back.
pub open spec fn next_state(state: BootloaderState, conditions: Conditions) -> BootloaderState {
    match state {
        BootloaderState::Entry => if conditions.backdoor {
            BootloaderState::Idle
        } else if conditions.application_valid {
            BootloaderState::UserProgramActive
        } else {
            BootloaderState::Error
        },
        BootloaderState::Idle => if conditions.hardware_failure {
            BootloaderState::Error
        } else if conditions.command_received {
            BootloaderState::Programming
        } else {
            BootloaderState::Idle
        },
        BootloaderState::Programming => if conditions.hardware_failure {
            BootloaderState::Error
        } else {
            BootloaderState::Programming
        },
        BootloaderState::UserProgramActive => BootloaderState::UserProgramActive,
        BootloaderState::Error => if conditions.backdoor {
            BootloaderState::Idle
        } else {
            BootloaderState::Error
        },
    }
}

/// Whether the bootloader may go from `from` to `to` in one step.
pub open spec fn permits(from: BootloaderState, to: BootloaderState) -> bool {
    ||| from == to
    ||| from == BootloaderState::Entry && to == BootloaderState::Idle
    ||| from == BootloaderState::Entry && to == BootloaderState::UserProgramActive
    ||| from == BootloaderState::Entry && to == BootloaderState::Error
    ||| from == BootloaderState::Idle && to == BootloaderState::Programming
    ||| from == BootloaderState::Idle && to == BootloaderState::Error
    ||| from == BootloaderState::Programming && to == BootloaderState::Error
    ||| from == BootloaderState::Error && to == BootloaderState::Idle
}

/// Whether a step from `state` under `conditions` hands control to the
/// application.
pub open spec fn starts_application(state: BootloaderState, conditions: Conditions) -> bool {
    state == BootloaderState::Entry && !conditions.backdoor && conditions.application_valid
}

/// Every step goes along one of the permitted transitions.
pub proof fn lemma_steps_are_permitted(state: BootloaderState, conditions: Conditions)
    ensures
        permits(state, next_state(state, conditions)),
{
}

/// Once control has gone to the application, no conditions bring it back.
pub proof fn lemma_user_program_is_final(conditions: Conditions)
    ensures
        next_state(BootloaderState::UserProgramActive, conditions)
            == BootloaderState::UserProgramActive,
{
}

/// Control goes to the application only from `Entry`, with a valid image and
/// no backdoor condition.
pub proof fn lemma_application_starts_once_checked(state: BootloaderState, conditions: Conditions)
    requires
        state != BootloaderState::UserProgramActive,
        next_state(state, conditions) == BootloaderState::UserProgramActive,
    ensures
        starts_application(state, conditions),
{
}

/// While a backdoor condition holds, no step hands control to the application.
pub proof fn lemma_backdoor_keeps_control(state: BootloaderState, conditions: Conditions)
    requires
        conditions.backdoor,
        state != BootloaderState::UserProgramActive,
    ensures
        next_state(state, conditions) != BootloaderState::UserProgramActive,
{
}

/// The state of the bootloader, with what it has found out about the image.
#[derive(Debug, Clone, Copy, PartialEq, Eq, Structural)]
pub struct StateMachine {
    state: BootloaderState,
    backdoor_timeout: u32,
    checksum_valid: bool,
}

impl StateMachine {
    /// Where the bootloader stands.
    pub closed spec fn state(&self) -> BootloaderState {
        self.state
    }

    /// How long the backdoor stays open after reset, in milliseconds.
    pub closed spec fn backdoor_timeout(&self) -> u32 {
        self.backdoor_timeout
    }

    /// Whether the image has been found valid.
    pub closed spec fn checksum_valid(&self) -> bool {
        self.checksum_valid
    }

    /// The state machine after reset.
    pub fn new() -> (machine: Self)
        ensures
            machine.state() == BootloaderState::Entry,
            machine.backdoor_timeout() == DEFAULT_BACKDOOR_TIMEOUT_MS,
            !machine.checksum_valid(),
    {
        Self {
            state: BootloaderState::Entry,
            backdoor_timeout: DEFAULT_BACKDOOR_TIMEOUT_MS,
            checksum_valid: false,
        }
    }

    /// Goes to `new_state` where a permitted transition leads there, and stays
    /// otherwise.
    pub fn transition_to(&mut self, new_state: BootloaderState)
        ensures
            final(self).state() == if permits(old(self).state(), new_state) {
                new_state
            } else {
                old(self).state()
            },
            final(self).backdoor_timeout() == old(self).backdoor_timeout(),
            final(self).checksum_valid() == old(self).checksum_valid(),
    {
        let permitted = match self.state {
            BootloaderState::Entry => match new_state {
                BootloaderState::Programming => false,
                _ => true,
            },
            BootloaderState::Idle => match new_state {
                BootloaderState::Idle | BootloaderState::Programming
                | BootloaderState::Error => true,
                _ => false,
            },
            BootloaderState::Programming => match new_state {
                BootloaderState::Programming | BootloaderState::Error => true,
                _ => false,
            },
            BootloaderState::UserProgramActive => match new_state {
                BootloaderState::UserProgramActive => true,
                _ => false,
            },
            BootloaderState::Error => match new_state {
                BootloaderState::Error | BootloaderState::Idle => true,
                _ => false,
            },
        };
        if permitted {
            self.state = new_state;
        }
    }

    /// Takes the step that `conditions` call for. Tells whether the step hands
    /// control to the application.
    pub fn advance(&mut self, conditions: Conditions) -> (jump: bool)
        ensures
            final(self).state() == next_state(old(self).state(), conditions),
            jump == starts_application(old(self).state(), conditions),
            final(self).backdoor_timeout() == old(self).backdoor_timeout(),
            final(self).checksum_valid() == (old(self).checksum_valid() || jump),
    {
        match self.state {
            BootloaderState::Entry => {
                if conditions.backdoor {
                    self.state = BootloaderState::Idle;
                } else if conditions.application_valid {
                    self.checksum_valid = true;
                    self.state = BootloaderState::UserProgramActive;
                    return true;
                } else {
                    self.state = BootloaderState::Error;
                }
            },
            BootloaderState::Idle => {
                if conditions.hardware_failure {
                    self.state = BootloaderState::Error;
                } else if conditions.command_received {
                    self.state = BootloaderState::Programming;
                }
            },
            BootloaderState::Programming => {
                if conditions.hardware_failure {
                    self.state = BootloaderState::Error;
                }
            },
            BootloaderState::UserProgramActive => {},
            BootloaderState::Error => {
                if conditions.backdoor {
                    self.state = BootloaderState::Idle;
                }
            },
        }
        false
    }

    /// How long the backdoor stays open after reset, in milliseconds.
    pub fn get_backdoor_timeout(&self) -> (timeout_ms: u32)
        ensures
            timeout_ms == self.backdoor_timeout(),
    {
        self.backdoor_timeout
    }

    /// Where the bootloader stands.
    pub fn current_state(&self) -> (state: BootloaderState)
        ensures
            state == self.state(),
    {
        self.state
    }

    /// Tells whether the bootloader still listens for a backdoor condition:
    /// in `Entry` and in `Idle`.
    pub fn is_backdoor_open(&self) -> (open: bool)
        ensures
            open == (self.state() == BootloaderState::Entry || self.state()
                == BootloaderState::Idle),
    {
        match self.state {
            BootloaderState::Entry | BootloaderState::Idle => true,
            _ => false,
        }
    }

    /// Records whether the image has been found valid.
    pub fn set_checksum_valid(&mut self, valid: bool)
        ensures
            final(self).checksum_valid() == valid,
            final(self).state() == old(self).state(),
            final(self).backdoor_timeout() == old(self).backdoor_timeout(),
    {
        self.checksum_valid = valid;
    }

    /// Tells whether the image has been found valid.
    pub fn is_checksum_valid(&self) -> (valid: bool)
        ensures
            valid == self.checksum_valid(),
    {
        self.checksum_valid
    }
}

} // verus!
