//! The bootloader as a whole: one poll of the surroundings at a time.

use crate::hal::{CanError, CanFrame, EmbeddedCan, HalError, S32KHal};
use crate::memory::{MemoryManagementError, MemoryManager};
use crate::protocol::{
    reception_command, session_outcome, Command, Protocol, ProtocolError, ProtocolSession,
    Response, RESPONSE_ID,
};
use crate::state::{
    next_state, permits, starts_application, BootloaderState, Conditions, StateMachine,
};
use crate::validator::{
    entry_point, image_is_runnable, lemma_erased_image_is_not_runnable, FirmwareValidator,
};
use vstd::prelude::*;
use vstd::string::StringExecFns;

verus! {

/// Why a poll of the bootloader ended in failure.
#[derive(Debug, Clone, PartialEq, Eq)]
pub enum BootloaderError {
    InvalidState,
    ProtocolError,
    MemoryError(MemoryManagementError),
    HalError,
}

impl BootloaderError {
    /// The text of the message that describes this error.
    pub open spec fn message_text(self) -> Seq<char> {
        match self {
            BootloaderError::InvalidState => "Invalid bootloader state"@,
            BootloaderError::ProtocolError => "Protocol error"@,
            BootloaderError::MemoryError(e) => "Memory error: "@ + e.message_text(),
            BootloaderError::HalError => "Hardware abstraction layer error"@,
        }
    }

    /// Describes this error in words.
    pub fn message(&self) -> (text: String)
        ensures
            text@ == self.message_text(),
    {
        match self {
            BootloaderError::InvalidState => "Invalid bootloader state".to_owned(),
            BootloaderError::ProtocolError => "Protocol error".to_owned(),
            BootloaderError::MemoryError(e) => {
                let reason = e.message();
                "Memory error: ".to_owned().concat(reason.as_str())
            },
            BootloaderError::HalError => "Hardware abstraction layer error".to_owned(),
        }
    }
}

/// Whether the outcome of waiting for a command shows a programming request:
/// a frame for the bootloader has arrived, whether or not it names a command.
pub open spec fn shows_request(received: Result<Command, ProtocolError>) -> bool {
    ||| received is Ok
    ||| received == Err::<Command, ProtocolError>(ProtocolError::InvalidCommand)
    ||| received == Err::<Command, ProtocolError>(ProtocolError::InvalidLength)
}

/// Tells whether the outcome of waiting for a command shows a programming
/// request.
pub fn is_programming_request(received: &Result<Command, ProtocolError>) -> (requested: bool)
    ensures
        requested == shows_request(*received),
{
    match received {
        Ok(_) => true,
        Err(ProtocolError::InvalidCommand) => true,
        Err(ProtocolError::InvalidLength) => true,
        Err(_) => false,
    }
}

/// Whether the outcome of a command shows a failure of the hardware: the
/// memory manager has passed one on.
pub open spec fn shows_failure(outcome: Result<Response, ProtocolError>) -> bool {
    outcome matches Err(ProtocolError::MemoryError(MemoryManagementError::Hardware(_)))
}

/// Tells whether the outcome of a command shows a failure of the hardware.
pub fn is_hardware_failure(outcome: &Result<Response, ProtocolError>) -> (failed: bool)
    ensures
        failed == shows_failure(*outcome),
{
    match outcome {
        Err(ProtocolError::MemoryError(MemoryManagementError::Hardware(_))) => true,
        _ => false,
    }
}

/// The payload of the frame that answers a command with `outcome`.
pub open spec fn answer(outcome: Result<Response, ProtocolError>) -> Seq<u8> {
    match outcome {
        Ok(response) => response.encoding(),
        Err(e) => e.encoding(),
    }
}

/// What a wait for a command may leave behind: the protocol end `before` and
/// `after` it, and what the wait gave. A frame was received or none was; a
/// command keeps the bytes after its command byte as the payload, and anything
/// else leaves the payload alone. Nothing is sent and the session stays.
pub open spec fn waited<C: EmbeddedCan>(
    before: Protocol<C>,
    after: Protocol<C>,
    given: Result<Command, ProtocolError>,
) -> bool {
    &&& after.session() == before.session()
    &&& after.timeout() == before.timeout()
    &&& after.bus().accepted() == before.bus().accepted()
    &&& given is Err ==> after.payload() == before.payload()
    &&& exists|received: Result<CanFrame, CanError>|
        given == reception_command(received) && (given is Ok ==> received is Ok
            && after.payload() == received->Ok_0.data@.skip(1))
}

/// What a poll gives that has made the jump into the application, where
/// `failure` says why the jump comes back, if it does.
pub open spec fn jumped(failure: Option<HalError>) -> Result<(), BootloaderError> {
    match failure {
        None => Ok(()),
        Some(_) => Err(BootloaderError::HalError),
    }
}

/// Whether a reboot can take the bootloader from `from` to `to`: from serving
/// commands, or from the wait for the first one, back to `Entry`.
pub open spec fn restarts(from: BootloaderState, to: BootloaderState) -> bool {
    (from == BootloaderState::Idle || from == BootloaderState::Programming) && to
        == BootloaderState::Entry
}

/// The bootloader: the protocol on the device's CAN interface, the manager of
/// its flash, and the state machine.
pub struct Bootloader<H: S32KHal + Clone> {
    protocol: Protocol<H::Can>,
    memory_manager: MemoryManager<H>,
    state_machine: StateMachine,
}

impl<H: S32KHal + Clone> Bootloader<H> {
    /// The protocol end.
    pub closed spec fn protocol(&self) -> Protocol<H::Can> {
        self.protocol
    }

    /// The memory manager.
    pub closed spec fn memory(&self) -> MemoryManager<H> {
        self.memory_manager
    }

    /// The state machine.
    pub closed spec fn machine(&self) -> StateMachine {
        self.state_machine
    }

    /// Where the bootloader stands.
    pub open spec fn state(&self) -> BootloaderState {
        self.machine().state()
    }

    /// The flash of the device.
    pub open spec fn flash(&self) -> Seq<u8> {
        self.memory().flash()
    }

    /// Every frame that the CAN interface has accepted for transmission.
    pub open spec fn transmitted(&self) -> Seq<(u32, Seq<u8>)> {
        self.protocol().bus().accepted()
    }

    /// What one poll may leave behind, whatever the hardware did: the
    /// bootloader `self` before it and `after` it.
    ///
    /// The layout stays and no protected byte changes. The state moves along a
    /// permitted transition, or back to `Entry` on a reboot.
    /// Outside `Idle` and `Programming`, and while programming is not
    /// enabled, flash stays as it is. At most one frame is sent, on the
    /// response identifier. Leaving `Programming` disables programming.
    /// `Entry` is left at once, and with the programming pin active `Entry`
    /// and `Error` lead to `Idle`, whatever the image. Control goes to the
    /// application only from `Entry` and only with a runnable image, and never
    /// comes back.
    pub open spec fn polled(&self, after: &Self) -> bool {
        &&& after.memory().same_layout(&self.memory())
        &&& self.memory().keeps_protected(self.flash(), after.flash())
        &&& permits(self.state(), after.state()) || restarts(self.state(), after.state())
        &&& self.state() != BootloaderState::Idle && self.state() != BootloaderState::Programming
            ==> after.flash() == self.flash() && after.transmitted() == self.transmitted()
            && after.protocol().session() == self.protocol().session()
        &&& !self.protocol().session().programming_enabled() ==> after.flash() == self.flash()
        &&& after.transmitted() == self.transmitted() || exists|data: Seq<u8>|
            after.transmitted() == self.transmitted().push(
                (RESPONSE_ID, data),
            )
        &&& self.state() == BootloaderState::Programming && after.state()
            != BootloaderState::Programming ==> !after.protocol().session().programming_enabled()
        &&& self.state() == BootloaderState::Entry ==> after.state() != BootloaderState::Entry
        &&& self.memory().device().programming_pin() && (self.state() == BootloaderState::Entry
            || self.state() == BootloaderState::Error) ==> after.state() == BootloaderState::Idle
        &&& self.state() == BootloaderState::UserProgramActive ==> after.state()
            == BootloaderState::UserProgramActive
        &&& after.state() == BootloaderState::UserProgramActive && self.state()
            != BootloaderState::UserProgramActive ==> self.state() == BootloaderState::Entry
            && image_is_runnable(self.flash(), self.memory().application_region())
    }

    /// Whether `after` is this bootloader after a failure was recorded: it
    /// stands in `Error` with a new protocol session.
    pub open spec fn failed(&self, after: &Self) -> bool {
        &&& after.state() == BootloaderState::Error
        &&& !after.protocol().session().programming_enabled()
        &&& after.protocol().session().response_id() == RESPONSE_ID
    }

    /// What looking for a backdoor condition may leave behind. With the
    /// programming pin active the answer is yes and the bus is not touched.
    /// Otherwise one wait for a frame is made, with the timeout put back
    /// after it, and the answer is whether the wait shows a programming
    /// request.
    pub open spec fn looked(&self, after: &Self, backdoor: bool) -> bool {
        after.machine() == self.machine() && self.sought(after, backdoor)
    }

    /// What looking for a backdoor condition leaves of the memory manager and
    /// of the protocol end, and what it answers: `looked` without the state
    /// machine.
    pub open spec fn sought(&self, after: &Self, backdoor: bool) -> bool {
        &&& after.memory() == self.memory()
        &&& if self.memory().device().programming_pin() {
            backdoor && after.protocol() == self.protocol()
        } else {
            exists|given: Result<Command, ProtocolError>|
                #[trigger] waited(self.protocol(), after.protocol(), given) && backdoor
                    == shows_request(given)
        }
    }

    /// What was sought stays sought where only the state machine moves on.
    proof fn lemma_sought_whatever_the_machine(&self, found: Self, after: Self, backdoor: bool)
        requires
            self.sought(&found, backdoor),
            after.memory() == found.memory(),
            after.protocol() == found.protocol(),
        ensures
            self.sought(&after, backdoor),
    {
        if !self.memory().device().programming_pin() {
            let given = choose|given: Result<Command, ProtocolError>|
                #[trigger] waited(self.protocol(), found.protocol(), given) && backdoor
                    == shows_request(given);
            assert(waited(self.protocol(), after.protocol(), given));
        }
    }

    /// What a poll in `Entry` leaves behind. It looks for a backdoor condition
    /// and takes the step that `next_state` gives for what it found and for
    /// whether the image has an entry point. The step into the application
    /// makes the jump to that entry point, and ends in `HalError` where the
    /// jump comes back with a failure; no other step ends in an error.
    pub open spec fn entered(&self, after: &Self, r: Result<(), BootloaderError>) -> bool {
        exists|backdoor: bool| #[trigger]
            self.sought(after, backdoor) && {
                let found = Conditions {
                    backdoor,
                    application_valid: entry_point(&self.memory()) is Some,
                    command_received: false,
                    hardware_failure: false,
                };
                &&& after.state() == next_state(BootloaderState::Entry, found)
                &&& after.machine().backdoor_timeout() == self.machine().backdoor_timeout()
                &&& after.machine().checksum_valid() == (self.machine().checksum_valid()
                    || starts_application(BootloaderState::Entry, found))
                &&& !starts_application(BootloaderState::Entry, found) ==> r is Ok
                &&& starts_application(BootloaderState::Entry, found) ==> r == jumped(
                    self.memory().device().jump_failure(entry_point(&self.memory())->Some_0),
                )
            }
    }

    /// What a poll in `Error` leaves behind. It looks for a backdoor condition
    /// and goes to `Idle` where there is one; it never fails.
    pub open spec fn recovered(&self, after: &Self, r: Result<(), BootloaderError>) -> bool {
        exists|backdoor: bool| #[trigger]
            self.sought(after, backdoor) && {
                let found = Conditions {
                    backdoor,
                    application_valid: false,
                    command_received: false,
                    hardware_failure: false,
                };
                &&& after.state() == next_state(BootloaderState::Error, found)
                &&& after.machine().backdoor_timeout() == self.machine().backdoor_timeout()
                &&& after.machine().checksum_valid() == self.machine().checksum_valid()
                &&& r == Ok::<(), BootloaderError>(())
            }
    }

    /// What a poll in `Idle` or in `Programming` leaves behind, where the wait
    /// gave `given` and left the bootloader as `ready` to act on it.
    ///
    /// A wait that brought no command is dealt with as `declined` says. A
    /// command is served as `served` says. In `Idle` the device enters
    /// programming mode and the bootloader goes to `Programming` before the
    /// command is served; where the device does not enter programming mode the
    /// poll ends in `HalError` with a failure recorded.
    pub open spec fn commanded_with(
        &self,
        after: &Self,
        r: Result<(), BootloaderError>,
        given: Result<Command, ProtocolError>,
        ready: Self,
    ) -> bool {
        &&& waited(self.protocol(), ready.protocol(), given)
        &&& match given {
            Err(e) => {
                &&& ready.memory() == self.memory()
                &&& ready.machine() == self.machine()
                &&& ready.declined(after, e, r)
            },
            Ok(command) => if self.state() == BootloaderState::Idle {
                &&& ready.memory().same_layout(&self.memory())
                &&& ready.flash() == self.flash()
                &&& {
                    ||| {
                        &&& r == Err::<(), BootloaderError>(BootloaderError::HalError)
                        &&& after.memory() == ready.memory()
                        &&& after.transmitted() == self.transmitted()
                        &&& self.failed(after)
                    }
                    ||| {
                        &&& ready.memory().device().programming_mode()
                        &&& ready.state() == BootloaderState::Programming
                        &&& ready.served(after, command, r)
                    }
                }
            } else {
                &&& ready.memory() == self.memory()
                &&& ready.machine() == self.machine()
                &&& ready.served(after, command, r)
            },
        }
    }

    /// What a poll in `Idle` or in `Programming` leaves behind:
    /// `commanded_with` for what the wait gave.
    pub open spec fn commanded(&self, after: &Self, r: Result<(), BootloaderError>) -> bool {
        exists|given: Result<Command, ProtocolError>, ready: Self| #[trigger]
            self.commanded_with(after, r, given, ready)
    }

    /// What one poll leaves behind and gives, state by state. Once control has
    /// gone to the application a poll changes nothing and is `InvalidState`.
    pub open spec fn processed(&self, after: &Self, r: Result<(), BootloaderError>) -> bool {
        match self.state() {
            BootloaderState::Entry => self.entered(after, r),
            BootloaderState::Idle => self.commanded(after, r),
            BootloaderState::Programming => self.commanded(after, r),
            BootloaderState::UserProgramActive => {
                &&& r == Err::<(), BootloaderError>(BootloaderError::InvalidState)
                &&& after.protocol() == self.protocol()
                &&& after.memory() == self.memory()
                &&& after.machine() == self.machine()
            },
            BootloaderState::Error => self.recovered(after, r),
        }
    }

    /// An application region that starts with a word of erased flash is never
    /// entered: a poll in `Entry` ends without error in `Idle`, where a
    /// backdoor condition was found, or in `Error`.
    pub proof fn lemma_erased_image_is_not_entered(
        before: Self,
        after: Self,
        r: Result<(), BootloaderError>,
    )
        requires
            before.state() == BootloaderState::Entry,
            before.processed(&after, r),
            0 <= before.memory().application_region().start(),
            before.memory().application_region().start() + 4 <= before.flash().len(),
            forall|a: int|
                before.memory().application_region().start() <= a
                    < before.memory().application_region().start() + 4 ==> before.flash()[a]
                    == 0xFF,
        ensures
            r is Ok,
            after.state() == BootloaderState::Idle || after.state() == BootloaderState::Error,
            !before.memory().device().programming_pin() && after.state()
                == BootloaderState::Idle ==> exists|given: Result<Command, ProtocolError>|
                #[trigger] waited(before.protocol(), after.protocol(), given) && shows_request(
                    given,
                ),
    {
        lemma_erased_image_is_not_runnable(
            before.flash(),
            before.memory().application_region(),
        );
    }

    /// What dealing with a wait that brought `error` may leave behind. After a
    /// timeout nothing changes. A frame that names no command is refused: the
    /// refusal goes out and the bootloader stays as it was, or it is lost and
    /// a failure is recorded. Anything else is a failure.
    pub open spec fn declined(
        &self,
        after: &Self,
        error: ProtocolError,
        r: Result<(), BootloaderError>,
    ) -> bool {
        &&& after.memory() == self.memory()
        &&& match error {
            ProtocolError::Timeout => {
                &&& r == Ok::<(), BootloaderError>(())
                &&& after.protocol() == self.protocol()
                &&& after.machine() == self.machine()
            },
            ProtocolError::InvalidCommand | ProtocolError::InvalidLength => if r is Ok {
                &&& after.transmitted() == self.transmitted().push(
                    (RESPONSE_ID, error.encoding()),
                )
                &&& after.protocol().session() == self.protocol().session()
                &&& after.machine() == self.machine()
            } else {
                &&& r == Err::<(), BootloaderError>(BootloaderError::ProtocolError)
                &&& after.transmitted() == self.transmitted()
                &&& self.failed(after)
            },
            _ => {
                &&& r == Err::<(), BootloaderError>(BootloaderError::ProtocolError)
                &&& after.transmitted() == self.transmitted()
                &&& self.failed(after)
            },
        }
    }

    /// What serving `command` may leave behind, where the command had
    /// `outcome`, left the session as `session` and the memory manager as
    /// `handled`.
    ///
    /// The command does what `session_outcome` says. Its answer goes out on the
    /// response identifier, or is lost, which is a failure. With the answer
    /// out, a failure of the hardware that the command passed on is a failure
    /// too, and is handed up. `Reboot` then leaves programming mode and starts
    /// the state machine over, or records a failure where the device does not
    /// leave programming mode. Any other command leaves the bootloader in
    /// `Programming`.
    pub open spec fn served_with(
        &self,
        after: &Self,
        command: Command,
        r: Result<(), BootloaderError>,
        outcome: Result<Response, ProtocolError>,
        session: ProtocolSession,
        handled: MemoryManager<H>,
    ) -> bool {
        let sent = self.transmitted().push((RESPONSE_ID, answer(outcome)));
        &&& session_outcome(
            self.protocol().session(),
            session,
            self.memory(),
            handled,
            command,
            self.protocol().payload(),
            outcome,
        )
        &&& after.memory().same_layout(&handled)
        &&& after.flash() == handled.flash()
        &&& {
            ||| {
                &&& r == Err::<(), BootloaderError>(BootloaderError::ProtocolError)
                &&& after.transmitted() == self.transmitted()
                &&& after.memory() == handled
                &&& self.failed(after)
            }
            ||| {
                &&& outcome matches Err(ProtocolError::MemoryError(e))
                &&& shows_failure(outcome)
                &&& r == Err::<(), BootloaderError>(BootloaderError::MemoryError(e))
                &&& after.transmitted() == sent
                &&& after.memory() == handled
                &&& self.failed(after)
            }
            ||| {
                &&& command == Command::Reboot
                &&& r == Err::<(), BootloaderError>(BootloaderError::HalError)
                &&& after.transmitted() == sent
                &&& self.failed(after)
            }
            ||| {
                &&& command == Command::Reboot
                &&& r == Ok::<(), BootloaderError>(())
                &&& after.transmitted() == sent
                &&& !after.memory().device().programming_mode()
                &&& after.protocol().session() == session
                &&& after.state() == BootloaderState::Entry
                &&& !after.machine().checksum_valid()
            }
            ||| {
                &&& command != Command::Reboot
                &&& !shows_failure(outcome)
                &&& r == Ok::<(), BootloaderError>(())
                &&& after.transmitted() == sent
                &&& after.memory() == handled
                &&& after.protocol().session() == session
                &&& after.machine() == self.machine()
            }
        }
    }

    /// What serving `command` may leave behind: `served_with` for the outcome
    /// that the command had.
    pub open spec fn served(
        &self,
        after: &Self,
        command: Command,
        r: Result<(), BootloaderError>,
    ) -> bool {
        exists|
            outcome: Result<Response, ProtocolError>,
            session: ProtocolSession,
            handled: MemoryManager<H>,
        | #[trigger]
            self.served_with(after, command, r, outcome, session, handled)
    }

    /// A bootloader for `hal`, in `Entry`, with a new protocol session on the
    /// device's CAN interface.
    pub fn new(hal: H) -> (r: Result<Self, BootloaderError>)
        ensures
            r matches Ok(bootloader) && bootloader.state() == BootloaderState::Entry
                && bootloader.memory().device() == hal && bootloader.memory().has_fixed_layout()
                && !bootloader.protocol().session().programming_enabled(),
    {
        let can = hal.clone().get_can();
        let memory_manager = match MemoryManager::new(hal) {
            Ok(manager) => manager,
            Err(e) => {
                return Err(BootloaderError::MemoryError(e));
            },
        };
        Ok(
            Self {
                protocol: Protocol::new(can),
                memory_manager,
                state_machine: StateMachine::new(),
            },
        )
    }

    /// Starts the protocol session over.
    pub fn init(&mut self) -> (r: Result<(), BootloaderError>)
        ensures
            r is Ok,
            final(self).memory() == old(self).memory(),
            final(self).machine() == old(self).machine(),
            !final(self).protocol().session().programming_enabled(),
            final(self).protocol().bus() == old(self).protocol().bus(),
    {
        match self.protocol.init() {
            Ok(()) => Ok(()),
            Err(_) => Err(BootloaderError::ProtocolError),
        }
    }

    /// The memory manager.
    pub fn get_memory_manager(&self) -> (manager: &MemoryManager<H>)
        ensures
            *manager == self.memory(),
    {
        &self.memory_manager
    }

    /// The protocol end.
    pub fn get_protocol(&self) -> (protocol: &Protocol<H::Can>)
        ensures
            *protocol == self.protocol(),
    {
        &self.protocol
    }

    /// The protocol end, to reach the CAN interface behind it.
    pub fn get_protocol_mut(&mut self) -> (protocol: &mut Protocol<H::Can>)
        ensures
            *protocol == old(self).protocol(),
            final(self).protocol() == *final(protocol),
            final(self).memory() == old(self).memory(),
            final(self).machine() == old(self).machine(),
    {
        &mut self.protocol
    }

    /// Where the bootloader stands.
    pub fn current_state(&self) -> (state: BootloaderState)
        ensures
            state == self.state(),
    {
        self.state_machine.current_state()
    }
}

impl<H: S32KHal + Clone> Bootloader<H> {
    /// Polls the surroundings once and takes the step that they call for.
    ///
    /// In `Entry` and in `Error` it looks for a backdoor condition; in `Entry`
    /// without one it checks the image and enters the application where the
    /// image is runnable. In `Idle` and in `Programming` it waits for one
    /// command, carries it out and answers it. A failure of the hardware or of
    /// the transport while commands are served ends the poll with an error and
    /// leaves the bootloader in `Error`. A jump that comes back with an error
    /// ends the poll with `HalError`. Once control has gone to the application
    /// there is nothing left to poll: `InvalidState`.
    pub fn process(&mut self) -> (r: Result<(), BootloaderError>)
        ensures
            old(self).polled(final(self)),
            old(self).processed(final(self), r),
            old(self).state() == BootloaderState::UserProgramActive <==> r == Err::<
                (),
                BootloaderError,
            >(BootloaderError::InvalidState),
            (old(self).state() == BootloaderState::Idle || old(self).state()
                == BootloaderState::Programming) && r is Err ==> old(self).failed(final(self)),
            old(self).state() == BootloaderState::Entry && r is Err ==> r == Err::<
                (),
                BootloaderError,
            >(BootloaderError::HalError) && final(self).state()
                == BootloaderState::UserProgramActive,
            old(self).state() == BootloaderState::Error ==> r is Ok,
            old(self).state() == BootloaderState::Entry && old(
                self,
            ).memory().device().programming_pin() ==> r is Ok,
    {
        match self.state_machine.current_state() {
            BootloaderState::Entry => {
                let backdoor = self.poll_backdoor();
                let ghost looked = *self;
                let entry = if backdoor {
                    None
                } else {
                    FirmwareValidator::application_entry_point(&self.memory_manager)
                };
                let jump = self.state_machine.advance(
                    Conditions {
                        backdoor,
                        application_valid: entry.is_some(),
                        command_received: false,
                        hardware_failure: false,
                    },
                );
                proof {
                    old(self).lemma_sought_whatever_the_machine(looked, *self, backdoor);
                }
                if jump {
                    if let Some(entry_point) = entry {
                        if self.memory_manager.get_hal().jump_to_application(
                            entry_point,
                        ).is_err() {
                            return Err(BootloaderError::HalError);
                        }
                    }
                }
                Ok(())
            },
            BootloaderState::Idle => {
                let given = self.protocol.receive_command();
                let ghost got = given;
                proof {
                    assert(waited(old(self).protocol(), self.protocol(), got));
                }
                match given {
                    Ok(command) => {
                        match self.memory_manager.enter_programming_mode() {
                            Ok(()) => {
                                self.state_machine.advance(
                                    Conditions {
                                        backdoor: false,
                                        application_valid: false,
                                        command_received: true,
                                        hardware_failure: false,
                                    },
                                );
                                let ghost ready = *self;
                                let r = self.serve(command);
                                proof {
                                    assert(old(self).commanded_with(&*self, r, got, ready));
                                }
                                r
                            },
                            Err(_) => {
                                let ghost ready = *self;
                                self.fail();
                                let r = Err(BootloaderError::HalError);
                                proof {
                                    assert(old(self).commanded_with(&*self, r, got, ready));
                                }
                                r
                            },
                        }
                    },
                    Err(e) => {
                        let ghost ready = *self;
                        let r = self.decline(e);
                        proof {
                            assert(old(self).commanded_with(&*self, r, got, ready));
                        }
                        r
                    },
                }
            },
            BootloaderState::Programming => {
                let given = self.protocol.receive_command();
                let ghost got = given;
                let ghost ready = *self;
                proof {
                    assert(waited(old(self).protocol(), self.protocol(), got));
                }
                let r = match given {
                    Ok(command) => self.serve(command),
                    Err(e) => self.decline(e),
                };
                proof {
                    assert(old(self).commanded_with(&*self, r, got, ready));
                }
                r
            },
            BootloaderState::UserProgramActive => Err(BootloaderError::InvalidState),
            BootloaderState::Error => {
                let backdoor = self.poll_backdoor();
                let ghost looked = *self;
                self.state_machine.advance(
                    Conditions {
                        backdoor,
                        application_valid: false,
                        command_received: false,
                        hardware_failure: false,
                    },
                );
                proof {
                    old(self).lemma_sought_whatever_the_machine(looked, *self, backdoor);
                }
                Ok(())
            },
        }
    }

    /// Looks for a backdoor condition: the entry pin first, then a frame for
    /// the bootloader on the bus, for as long as the backdoor stays open.
    fn poll_backdoor(&mut self) -> (backdoor: bool)
        ensures
            old(self).looked(final(self), backdoor),
            old(self).memory().device().programming_pin() ==> backdoor,
            final(self).memory() == old(self).memory(),
            final(self).machine() == old(self).machine(),
            final(self).protocol().session() == old(self).protocol().session(),
            final(self).protocol().timeout() == old(self).protocol().timeout(),
            final(self).transmitted() == old(self).transmitted(),
    {
        if self.memory_manager.get_hal().is_programming_pin_active() {
            return true;
        }
        let timeout_ms = self.protocol.get_timeout();
        self.protocol.set_timeout(self.state_machine.get_backdoor_timeout());
        let given = self.protocol.receive_command();
        self.protocol.set_timeout(timeout_ms);
        proof {
            assert(waited(old(self).protocol(), self.protocol(), given));
        }
        is_programming_request(&given)
    }

    /// Records a failure of the hardware or of the transport, and ends the
    /// protocol session.
    fn fail(&mut self)
        ensures
            final(self).memory() == old(self).memory(),
            final(self).transmitted() == old(self).transmitted(),
            !final(self).protocol().session().programming_enabled(),
            final(self).protocol().session().response_id() == RESPONSE_ID,
            final(self).state() == next_state(
                old(self).state(),
                Conditions {
                    backdoor: false,
                    application_valid: false,
                    command_received: false,
                    hardware_failure: true,
                },
            ),
    {
        let _ = self.protocol.init();
        self.state_machine.advance(
            Conditions {
                backdoor: false,
                application_valid: false,
                command_received: false,
                hardware_failure: true,
            },
        );
    }

    /// Deals with a wait that brought no command: nothing to do after a
    /// timeout, a refusal for a frame that names no command, and a failure for
    /// anything else.
    fn decline(&mut self, error: ProtocolError) -> (r: Result<(), BootloaderError>)
        requires
            old(self).state() == BootloaderState::Idle || old(self).state()
                == BootloaderState::Programming,
        ensures
            old(self).declined(final(self), error, r),
            old(self).polled(final(self)),
            final(self).flash() == old(self).flash(),
    {
        match error {
            ProtocolError::Timeout => Ok(()),
            ProtocolError::InvalidCommand | ProtocolError::InvalidLength => {
                let refusal = error.encode();
                match self.protocol.send_response(refusal.as_slice()) {
                    Ok(()) => Ok(()),
                    Err(_) => {
                        self.fail();
                        Err(BootloaderError::ProtocolError)
                    },
                }
            },
            _ => {
                self.fail();
                Err(BootloaderError::ProtocolError)
            },
        }
    }

    /// Carries out `command`, answers it, and takes the step that the outcome
    /// calls for.
    fn serve(&mut self, command: Command) -> (r: Result<(), BootloaderError>)
        requires
            old(self).state() == BootloaderState::Programming,
        ensures
            final(self).memory().same_layout(&old(self).memory()),
            old(self).memory().keeps_protected(old(self).flash(), final(self).flash()),
            final(self).state() == BootloaderState::Programming || final(self).state()
                == BootloaderState::Error || final(self).state() == BootloaderState::Entry,
            final(self).state() != BootloaderState::Programming
                ==> !final(self).protocol().session().programming_enabled(),
            !old(self).protocol().session().programming_enabled()
                ==> final(self).flash() == old(self).flash(),
            final(self).transmitted() == old(self).transmitted() || exists|data: Seq<u8>|
                final(self).transmitted() == old(self).transmitted().push(
                    (RESPONSE_ID, data),
                ),
            old(self).served(final(self), command, r),
    {
        let outcome = self.protocol.handle_command(&mut self.memory_manager, command);
        let ghost had = outcome;
        let ghost session = self.protocol.session();
        let ghost handled = self.memory_manager;
        let bytes = match &outcome {
            Ok(response) => response.encode(),
            Err(e) => e.encode(),
        };
        let sent = self.protocol.send_response(bytes.as_slice());
        if sent.is_err() {
            self.fail();
            let r = Err(BootloaderError::ProtocolError);
            assert(old(self).served_with(&*self, command, r, had, session, handled));
            return r;
        }
        if is_hardware_failure(&outcome) {
            self.fail();
            let r = match outcome {
                Err(ProtocolError::MemoryError(e)) => Err(BootloaderError::MemoryError(e)),
                _ => Err(BootloaderError::HalError),
            };
            assert(old(self).served_with(&*self, command, r, had, session, handled));
            return r;
        }
        match command {
            Command::Reboot => {
                if self.memory_manager.exit_programming_mode().is_err() {
                    self.fail();
                    let r = Err(BootloaderError::HalError);
                    assert(old(self).served_with(&*self, command, r, had, session, handled));
                    return r;
                }
                self.state_machine = StateMachine::new();
                let r = Ok(());
                assert(old(self).served_with(&*self, command, r, had, session, handled));
                r
            },
            _ => {
                let r = Ok(());
                assert(old(self).served_with(&*self, command, r, had, session, handled));
                r
            },
        }
    }
}

} // verus!
