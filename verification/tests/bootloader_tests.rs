use openblt::bootloader::{
    is_hardware_failure, is_programming_request, Bootloader, BootloaderError,
};
use openblt::flash::Flash;
use openblt::hal::{Bytes, CanFrame, HalError, S32KHal};
use openblt::memory::{MemoryManagementError, APPLICATION_START};
use openblt::protocol::{Command, ProtocolError, Response, COMMAND_ID, RESPONSE_ID};
use openblt::s32k118::{S32K118Can, S32K118Hal, TX_FIFO_DEPTH};
use openblt::state::BootloaderState;
use openblt::validator::{FirmwareValidator, RAM_END, RAM_START};

fn hal_with_image(stack_pointer: u32, reset_vector: u32) -> S32K118Hal {
    let mut hal = S32K118Hal::new().unwrap();
    hal.enter_programming_mode().unwrap();
    let mut table = stack_pointer.to_le_bytes().to_vec();
    table.extend_from_slice(&reset_vector.to_le_bytes());
    hal.write_flash(APPLICATION_START, &table).unwrap();
    hal.exit_programming_mode().unwrap();
    hal
}

fn command(bytes: &[u8]) -> CanFrame {
    CanFrame { id: COMMAND_ID, data: bytes.to_vec() }
}

fn range_command(code: u8, address: u32, length: u32, data: &[u8]) -> CanFrame {
    let mut bytes = vec![code];
    bytes.extend_from_slice(&address.to_le_bytes());
    bytes.extend_from_slice(&length.to_le_bytes());
    bytes.extend_from_slice(data);
    command(&bytes)
}

fn deliver(bootloader: &mut Bootloader<S32K118Hal>, frame: CanFrame) {
    bootloader.get_protocol_mut().get_can_mut().received.push(frame);
}

fn responses(bootloader: &Bootloader<S32K118Hal>) -> Vec<Vec<u8>> {
    let sent = &bootloader.get_protocol().get_can().sent;
    assert!(sent.iter().all(|frame| frame.id == RESPONSE_ID));
    sent.iter().map(|frame| frame.data.clone()).collect()
}

fn bootloader_in_programming() -> Bootloader<S32K118Hal> {
    let mut hal = S32K118Hal::new().unwrap();
    hal.set_programming_pin(true);
    let mut bootloader = Bootloader::new(hal).unwrap();
    assert_eq!(bootloader.process(), Ok(()));
    deliver(&mut bootloader, command(&[0x02]));
    assert_eq!(bootloader.process(), Ok(()));
    assert_eq!(bootloader.current_state(), BootloaderState::Programming);
    assert_eq!(responses(&bootloader), vec![vec![0x00]]);
    bootloader.get_protocol_mut().get_can_mut().sent.clear();
    bootloader
}

#[test]
fn erased_application_leads_to_error() {
    let mut bootloader = Bootloader::new(S32K118Hal::new().unwrap()).unwrap();
    assert_eq!(bootloader.current_state(), BootloaderState::Entry);
    assert!(!FirmwareValidator::is_application_valid(bootloader.get_memory_manager()));
    assert_eq!(bootloader.process(), Ok(()));
    assert_eq!(bootloader.current_state(), BootloaderState::Error);
    assert_eq!(bootloader.process(), Ok(()));
    assert_eq!(bootloader.current_state(), BootloaderState::Error);
}

#[test]
fn entry_pin_leads_to_idle_and_a_command_to_programming() {
    for hal in [S32K118Hal::new().unwrap(), hal_with_image(0x2000_0000, 0x0001_0101)] {
        let mut hal = hal;
        hal.set_programming_pin(true);
        let mut bootloader = Bootloader::new(hal).unwrap();
        assert_eq!(bootloader.process(), Ok(()));
        assert_eq!(bootloader.current_state(), BootloaderState::Idle);
        assert_eq!(bootloader.process(), Ok(()));
        assert_eq!(bootloader.current_state(), BootloaderState::Idle);
        deliver(&mut bootloader, command(&[0x01]));
        assert_eq!(bootloader.process(), Ok(()));
        assert_eq!(bootloader.current_state(), BootloaderState::Programming);
        assert_eq!(responses(&bootloader), vec![vec![1, 0, 0]]);
    }
}

#[test]
fn programming_request_on_the_bus_leads_to_idle() {
    let mut hal = hal_with_image(0x2000_0000, 0x0001_0101);
    hal.get_can_mut().received.push(command(&[0x01]));
    let mut bootloader = Bootloader::new(hal).unwrap();
    assert_eq!(bootloader.process(), Ok(()));
    assert_eq!(bootloader.current_state(), BootloaderState::Idle);
    assert_eq!(responses(&bootloader), Vec::<Vec<u8>>::new());
}

#[test]
fn foreign_frame_is_no_programming_request() {
    let mut hal = S32K118Hal::new().unwrap();
    hal.get_can_mut().received.push(CanFrame { id: 0x123, data: vec![0x01] });
    let mut bootloader = Bootloader::new(hal).unwrap();
    assert_eq!(bootloader.process(), Ok(()));
    assert_eq!(bootloader.current_state(), BootloaderState::Error);
}

#[test]
fn valid_application_is_entered() {
    let mut bootloader = Bootloader::new(hal_with_image(0x2000_0000, 0x0001_0101)).unwrap();
    assert!(FirmwareValidator::is_application_valid(bootloader.get_memory_manager()));
    assert_eq!(
        FirmwareValidator::application_entry_point(bootloader.get_memory_manager()),
        Some(0x0001_0101)
    );
    assert_eq!(bootloader.process(), Ok(()));
    assert_eq!(bootloader.current_state(), BootloaderState::UserProgramActive);
    deliver(&mut bootloader, command(&[0x01]));
    assert_eq!(bootloader.process(), Err(BootloaderError::InvalidState));
    assert_eq!(bootloader.current_state(), BootloaderState::UserProgramActive);
    assert_eq!(responses(&bootloader), Vec::<Vec<u8>>::new());
}

/// A device that is the model in all but this: it may refuse to jump, and it
/// may refuse to enter programming mode.
#[derive(Clone)]
struct Stubborn {
    model: S32K118Hal,
    refuses_jump: bool,
    refuses_programming: bool,
}

impl S32KHal for Stubborn {
    type Can = S32K118Can;

    // What the proofs see of a device; nothing that runs asks for it.

    fn flash(&self) -> Bytes {
        unreachable!()
    }

    fn programming_pin(&self) -> bool {
        unreachable!()
    }

    fn programming_mode(&self) -> bool {
        unreachable!()
    }

    fn erase_failure(&self, _address: u32, _length: u32) -> Option<HalError> {
        unreachable!()
    }

    fn program_failure(&self, _address: u32, _data: Bytes) -> Option<HalError> {
        unreachable!()
    }

    fn read_failure(&self, _address: u32, _length: usize) -> Option<HalError> {
        unreachable!()
    }

    fn jump_failure(&self, _entry_point: u32) -> Option<HalError> {
        unreachable!()
    }

    fn init() -> Result<Self, HalError> {
        Ok(Stubborn { model: S32K118Hal::init()?, refuses_jump: false, refuses_programming: false })
    }

    fn get_can(self) -> S32K118Can {
        S32KHal::get_can(self.model)
    }

    fn is_programming_pin_active(&self) -> bool {
        self.model.is_programming_pin_active()
    }

    fn enter_programming_mode(&mut self) -> Result<(), HalError> {
        if self.refuses_programming {
            return Err(HalError::HardwareError);
        }
        self.model.enter_programming_mode()
    }

    fn exit_programming_mode(&mut self) -> Result<(), HalError> {
        self.model.exit_programming_mode()
    }

    fn erase_flash(&mut self, address: u32, length: u32) -> Result<(), HalError> {
        self.model.erase_flash(address, length)
    }

    fn write_flash(&mut self, address: u32, data: &[u8]) -> Result<(), HalError> {
        self.model.write_flash(address, data)
    }

    fn read_flash(&self, address: u32, data: &mut [u8]) -> Result<(), HalError> {
        self.model.read_flash(address, data)
    }

    fn jump_to_application(&self, entry_point: u32) -> Result<(), HalError> {
        if self.refuses_jump {
            return Err(HalError::HardwareError);
        }
        self.model.jump_to_application(entry_point)
    }
}

#[test]
fn failed_jump_is_reported() {
    let device = Stubborn {
        model: hal_with_image(0x2000_0000, 0x0001_0100),
        refuses_jump: true,
        refuses_programming: false,
    };
    let mut bootloader = Bootloader::new(device).unwrap();
    assert!(FirmwareValidator::is_application_valid(bootloader.get_memory_manager()));
    assert_eq!(bootloader.process(), Err(BootloaderError::HalError));
    assert_eq!(bootloader.current_state(), BootloaderState::UserProgramActive);
    assert_eq!(bootloader.process(), Err(BootloaderError::InvalidState));
}

#[test]
fn image_with_an_even_reset_vector_is_entered() {
    let mut bootloader = Bootloader::new(hal_with_image(0x2000_0000, 0x0001_0100)).unwrap();
    assert_eq!(bootloader.process(), Ok(()));
    assert_eq!(bootloader.current_state(), BootloaderState::UserProgramActive);
}

#[test]
fn refused_programming_mode_leads_to_error() {
    let mut model = S32K118Hal::new().unwrap();
    model.set_programming_pin(true);
    let device = Stubborn { model, refuses_jump: false, refuses_programming: true };
    let mut bootloader = Bootloader::new(device).unwrap();
    assert_eq!(bootloader.process(), Ok(()));
    assert_eq!(bootloader.current_state(), BootloaderState::Idle);
    bootloader.get_protocol_mut().get_can_mut().received.push(command(&[0x01]));
    assert_eq!(bootloader.process(), Err(BootloaderError::HalError));
    assert_eq!(bootloader.current_state(), BootloaderState::Error);
    assert_eq!(bootloader.get_protocol().get_can().sent, vec![]);
}

#[test]
fn storage_failure_leads_to_error() {
    let mut hal = S32K118Hal::with_flash(Flash::with_geometry(0, 0x0008_0000));
    hal.set_programming_pin(true);
    let mut bootloader = Bootloader::new(hal).unwrap();
    assert_eq!(bootloader.process(), Ok(()));
    deliver(&mut bootloader, command(&[0x02]));
    deliver(&mut bootloader, range_command(0x04, 0x0007_F000, 4096, &[]));
    deliver(&mut bootloader, range_command(0x04, 0x0008_0000, 4096, &[]));
    assert_eq!(bootloader.process(), Ok(()));
    assert_eq!(bootloader.process(), Ok(()));
    assert_eq!(
        bootloader.process(),
        Err(BootloaderError::MemoryError(MemoryManagementError::Hardware(
            "Flash error".to_string()
        )))
    );
    assert_eq!(bootloader.current_state(), BootloaderState::Error);
    assert!(!bootloader.get_protocol().get_session().is_programming_enabled());
    assert_eq!(responses(&bootloader), vec![vec![0x00], vec![0x00], vec![0xFF, 0x13]]);
}

#[test]
fn unreadable_image_is_not_valid() {
    let hal = S32K118Hal::with_flash(Flash::with_geometry(0, 0x0001_0000));
    let mut bootloader = Bootloader::new(hal).unwrap();
    assert!(!FirmwareValidator::is_application_valid(bootloader.get_memory_manager()));
    assert_eq!(
        FirmwareValidator::calculate_checksum(
            bootloader.get_memory_manager(),
            APPLICATION_START,
            4
        ),
        Err(MemoryManagementError::Hardware("Flash error".to_string()))
    );
    assert_eq!(bootloader.process(), Ok(()));
    assert_eq!(bootloader.current_state(), BootloaderState::Error);
}

#[test]
fn vector_table_is_checked() {
    let region = openblt::memory::MemoryRegion::new(0x0001_0000, 0x000F_0000, false).unwrap();
    assert!(FirmwareValidator::check_vector_table(0x2000_0000, 0x0001_0101, &region));
    assert!(FirmwareValidator::check_vector_table(RAM_START, 0x0001_0000, &region));
    assert!(FirmwareValidator::check_vector_table(RAM_END, 0x000F_FFFF, &region));
    assert!(!FirmwareValidator::check_vector_table(RAM_START - 1, 0x0001_0101, &region));
    assert!(!FirmwareValidator::check_vector_table(RAM_END + 1, 0x0001_0101, &region));
    assert!(!FirmwareValidator::check_vector_table(0x2000_0000, 0x0000_FFFF, &region));
    assert!(!FirmwareValidator::check_vector_table(0x2000_0000, 0x0010_0000, &region));
    assert!(!FirmwareValidator::check_vector_table(0xFFFF_FFFF, 0x0001_0101, &region));
    assert!(!FirmwareValidator::check_vector_table(0x2000_0000, 0xFFFF_FFFF, &region));
}

#[test]
fn images_with_bad_vectors_are_not_valid() {
    for (stack_pointer, reset_vector) in [
        (0xFFFF_FFFFu32, 0x0001_0101u32),
        (0x2000_0000, 0xFFFF_FFFF),
        (0x1000_0000, 0x0001_0101),
        (0x2000_0000, 0x0000_0101),
        (0x2000_0000, 0x0010_0000),
    ] {
        let mut bootloader = Bootloader::new(hal_with_image(stack_pointer, reset_vector)).unwrap();
        assert!(!FirmwareValidator::is_application_valid(bootloader.get_memory_manager()));
        assert_eq!(bootloader.process(), Ok(()));
        assert_eq!(bootloader.current_state(), BootloaderState::Error);
    }
}

#[test]
fn validator_checksum_covers_every_region() {
    let bootloader = Bootloader::new(hal_with_image(0x2000_0000, 0x0001_0101)).unwrap();
    let manager = bootloader.get_memory_manager();
    assert_eq!(
        FirmwareValidator::calculate_checksum(manager, APPLICATION_START, 8),
        Ok(0x2000_0000 ^ 0x0001_0101)
    );
    assert_eq!(FirmwareValidator::calculate_checksum(manager, 0, 4096), Ok(0));
    assert_eq!(FirmwareValidator::calculate_checksum(manager, 0, 4), Ok(0xFFFF_FFFF));
    assert_eq!(
        FirmwareValidator::calculate_checksum(manager, APPLICATION_START, 7),
        Err(MemoryManagementError::RegionNotAligned)
    );
    assert_eq!(
        FirmwareValidator::calculate_checksum(manager, APPLICATION_START - 4, 8),
        Err(MemoryManagementError::InvalidRegion)
    );
}

#[test]
fn error_state_recovers_through_the_backdoor() {
    let mut bootloader = Bootloader::new(S32K118Hal::new().unwrap()).unwrap();
    assert_eq!(bootloader.process(), Ok(()));
    assert_eq!(bootloader.current_state(), BootloaderState::Error);
    deliver(&mut bootloader, command(&[0x01]));
    assert_eq!(bootloader.process(), Ok(()));
    assert_eq!(bootloader.current_state(), BootloaderState::Idle);
}

#[test]
fn unknown_command_is_refused_without_leaving_idle() {
    let mut hal = S32K118Hal::new().unwrap();
    hal.set_programming_pin(true);
    let mut bootloader = Bootloader::new(hal).unwrap();
    assert_eq!(bootloader.process(), Ok(()));
    deliver(&mut bootloader, command(&[0x99]));
    assert_eq!(bootloader.process(), Ok(()));
    assert_eq!(bootloader.current_state(), BootloaderState::Idle);
    assert_eq!(responses(&bootloader), vec![vec![0xFF, 0x01]]);
    deliver(&mut bootloader, command(&[]));
    assert_eq!(bootloader.process(), Ok(()));
    assert_eq!(responses(&bootloader), vec![vec![0xFF, 0x01], vec![0xFF, 0x02]]);
}

#[test]
fn programming_session_erases_writes_and_reads_back() {
    let mut bootloader = bootloader_in_programming();
    deliver(&mut bootloader, range_command(0x04, APPLICATION_START, 4096, &[]));
    deliver(&mut bootloader, range_command(0x05, APPLICATION_START, 4, &[0xDE, 0xAD, 0xBE, 0xEF]));
    deliver(&mut bootloader, range_command(0x06, APPLICATION_START, 4, &[]));
    deliver(&mut bootloader, range_command(0x07, APPLICATION_START, 4, &[]));
    deliver(&mut bootloader, command(&[0x03]));
    for _ in 0..5 {
        assert_eq!(bootloader.process(), Ok(()));
        assert_eq!(bootloader.current_state(), BootloaderState::Programming);
    }
    assert_eq!(
        responses(&bootloader),
        vec![
            vec![0x00],
            vec![0x00],
            vec![0xDE, 0xAD, 0xBE, 0xEF],
            vec![0xDE, 0xAD, 0xBE, 0xEF],
            vec![0x01]
        ]
    );
}

#[test]
fn commands_before_programming_is_enabled_are_refused() {
    let mut hal = S32K118Hal::new().unwrap();
    hal.set_programming_pin(true);
    let mut bootloader = Bootloader::new(hal).unwrap();
    assert_eq!(bootloader.process(), Ok(()));
    deliver(&mut bootloader, range_command(0x04, APPLICATION_START, 4096, &[]));
    deliver(&mut bootloader, range_command(0x05, APPLICATION_START, 4, &[1, 2, 3, 4]));
    deliver(&mut bootloader, range_command(0x06, APPLICATION_START, 4, &[]));
    deliver(&mut bootloader, range_command(0x07, APPLICATION_START, 4, &[]));
    for _ in 0..4 {
        assert_eq!(bootloader.process(), Ok(()));
    }
    assert_eq!(bootloader.current_state(), BootloaderState::Programming);
    assert_eq!(responses(&bootloader), vec![vec![0xFF, 0x03]; 4]);
    let mut stored = [0u8; 4];
    bootloader.get_memory_manager().read(APPLICATION_START, &mut stored).unwrap();
    assert_eq!(stored, [0xFF; 4]);
}

#[test]
fn refused_commands_keep_the_session_going() {
    let mut bootloader = bootloader_in_programming();
    deliver(&mut bootloader, range_command(0x04, 0, 4096, &[]));
    deliver(&mut bootloader, range_command(0x04, APPLICATION_START, 7, &[]));
    deliver(&mut bootloader, command(&[0x04, 1, 2]));
    deliver(&mut bootloader, command(&[0x55]));
    for _ in 0..4 {
        assert_eq!(bootloader.process(), Ok(()));
        assert_eq!(bootloader.current_state(), BootloaderState::Programming);
    }
    assert_eq!(
        responses(&bootloader),
        vec![vec![0xFF, 0x14], vec![0xFF, 0x12], vec![0xFF, 0x02], vec![0xFF, 0x01]]
    );
}

#[test]
fn failed_verification_is_reported_and_the_session_goes_on() {
    let mut bootloader = bootloader_in_programming();
    deliver(&mut bootloader, range_command(0x05, APPLICATION_START, 4, &[0x0F; 4]));
    deliver(&mut bootloader, range_command(0x05, APPLICATION_START, 4, &[0xF0; 4]));
    assert_eq!(bootloader.process(), Ok(()));
    assert_eq!(bootloader.process(), Ok(()));
    assert_eq!(bootloader.current_state(), BootloaderState::Programming);
    assert_eq!(responses(&bootloader), vec![vec![0x00], vec![0xFF, 0x04]]);
}

#[test]
fn reboot_restarts_at_entry() {
    let mut bootloader = bootloader_in_programming();
    deliver(&mut bootloader, range_command(0x05, APPLICATION_START, 8, &[
        0x00, 0x00, 0x00, 0x20, 0x01, 0x01, 0x01, 0x00,
    ]));
    deliver(&mut bootloader, command(&[0x08]));
    assert_eq!(bootloader.process(), Ok(()));
    assert_eq!(bootloader.process(), Ok(()));
    assert_eq!(bootloader.current_state(), BootloaderState::Entry);
    assert!(!bootloader.get_protocol().get_session().is_programming_enabled());
    assert_eq!(responses(&bootloader), vec![vec![0x00], vec![0x00]]);
}

#[test]
fn lost_response_leads_to_error() {
    let mut bootloader = bootloader_in_programming();
    for _ in 0..TX_FIFO_DEPTH {
        deliver(&mut bootloader, command(&[0x01]));
        assert_eq!(bootloader.process(), Ok(()));
    }
    deliver(&mut bootloader, range_command(0x05, APPLICATION_START, 4, &[1, 2, 3, 4]));
    assert_eq!(bootloader.process(), Err(BootloaderError::ProtocolError));
    assert_eq!(bootloader.current_state(), BootloaderState::Error);
    let mut stored = [0u8; 4];
    bootloader.get_memory_manager().read(APPLICATION_START, &mut stored).unwrap();
    assert_eq!(stored, [1, 2, 3, 4]);
}

#[test]
fn init_starts_the_session_over() {
    let mut bootloader = bootloader_in_programming();
    assert!(bootloader.get_protocol().get_session().is_programming_enabled());
    assert_eq!(bootloader.init(), Ok(()));
    assert!(!bootloader.get_protocol().get_session().is_programming_enabled());
    assert_eq!(bootloader.current_state(), BootloaderState::Programming);
}

#[test]
fn bootloader_error_messages() {
    assert_eq!(BootloaderError::InvalidState.message(), "Invalid bootloader state");
    assert_eq!(BootloaderError::ProtocolError.message(), "Protocol error");
    assert_eq!(
        BootloaderError::MemoryError(MemoryManagementError::InvalidRegion).message(),
        "Memory error: Invalid memory region"
    );
    assert_eq!(BootloaderError::HalError.message(), "Hardware abstraction layer error");
}

#[test]
fn hal_model_refuses_flash_changes_outside_programming_mode() {
    let mut hal = S32K118Hal::new().unwrap();
    assert_eq!(hal.erase_flash(APPLICATION_START, 4096), Err(HalError::InvalidState));
    assert_eq!(hal.write_flash(APPLICATION_START, &[0; 4]), Err(HalError::InvalidState));
    assert_eq!(hal.enter_programming_mode(), Ok(()));
    assert_eq!(hal.write_flash(APPLICATION_START, &[1, 2, 3, 4]), Ok(()));
    assert_eq!(hal.write_flash(APPLICATION_START + 1, &[1, 2, 3, 4]), Err(HalError::FlashError));
    assert_eq!(hal.erase_flash(APPLICATION_START, 100), Err(HalError::FlashError));
    let mut data = [0u8; 4];
    assert_eq!(hal.read_flash(APPLICATION_START, &mut data), Ok(()));
    assert_eq!(data, [1, 2, 3, 4]);
    assert_eq!(hal.read_flash(0xFFFF_FFFE, &mut data), Err(HalError::FlashError));
    assert_eq!(hal.erase_flash(APPLICATION_START, 4096), Ok(()));
    assert_eq!(hal.read_flash(APPLICATION_START, &mut data), Ok(()));
    assert_eq!(data, [0xFF; 4]);
}

#[test]
fn hal_model_checks_the_entry_point() {
    let hal = S32K118Hal::init().unwrap();
    assert!(!hal.is_programming_pin_active());
    assert_eq!(hal.jump_to_application(0x0001_0001), Ok(()));
    assert_eq!(hal.jump_to_application(0x00FF_FFFF), Ok(()));
    assert_eq!(hal.jump_to_application(0x0001_0000), Ok(()));
    assert_eq!(hal.jump_to_application(0x0000_FFFF), Err(HalError::InvalidState));
    assert_eq!(hal.jump_to_application(0x0100_0000), Err(HalError::InvalidState));
}

#[test]
fn hal_error_messages() {
    assert_eq!(HalError::InvalidState.message(), "Invalid hardware state");
    assert_eq!(HalError::HardwareError.message(), "Hardware error");
    assert_eq!(HalError::FlashError.message(), "Flash error");
    assert_eq!(HalError::CanError.message(), "CAN error");
    assert_eq!(openblt::s32k118::Error::CanError.message(), "CAN communication error");
    assert_eq!(openblt::s32k118::Error::InitError.message(), "Hardware initialization error");
    assert_eq!(openblt::s32k118::Error::ConfigError.message(), "Invalid configuration");
}

#[test]
fn any_frame_for_the_bootloader_is_a_programming_request() {
    assert!(is_programming_request(&Ok(Command::GetProtocolVersion)));
    assert!(is_programming_request(&Ok(Command::Reboot)));
    assert!(is_programming_request(&Err(ProtocolError::InvalidCommand)));
    assert!(is_programming_request(&Err(ProtocolError::InvalidLength)));
    assert!(!is_programming_request(&Err(ProtocolError::Timeout)));
    assert!(!is_programming_request(&Err(ProtocolError::CommunicationError)));
}

#[test]
fn only_passed_on_hardware_errors_are_failures() {
    let hardware = MemoryManagementError::Hardware("Flash error".to_string());
    assert!(is_hardware_failure(&Err(ProtocolError::MemoryError(hardware))));
    assert!(!is_hardware_failure(&Err(ProtocolError::MemoryError(
        MemoryManagementError::InvalidRegion
    ))));
    assert!(!is_hardware_failure(&Err(ProtocolError::VerificationFailed)));
    assert!(!is_hardware_failure(&Err(ProtocolError::ProgrammingNotEnabled)));
    assert!(!is_hardware_failure(&Ok(Response::Acknowledged)));
}

#[test]
fn backdoor_poll_keeps_the_protocol_timeout() {
    let mut bootloader = Bootloader::new(S32K118Hal::new().unwrap()).unwrap();
    bootloader.get_protocol_mut().set_timeout(42);
    assert_eq!(bootloader.process(), Ok(()));
    assert_eq!(bootloader.get_protocol().get_timeout(), 42);
}

#[test]
fn hal_model_after_init_is_as_after_reset() {
    let mut hal = S32K118Hal::init().unwrap();
    assert!(!hal.is_programming_pin_active());
    assert_eq!(S32K118Hal::get_can(&hal).received, vec![]);
    assert_eq!(S32K118Hal::get_can(&hal).sent, vec![]);
    let mut data = [0u8; 4];
    assert_eq!(hal.read_flash(openblt::flash::FLASH_SIZE - 4, &mut data), Ok(()));
    assert_eq!(data, [0xFF; 4]);
    assert_eq!(hal.read_flash(openblt::flash::FLASH_SIZE, &mut data), Err(HalError::FlashError));
    assert_eq!(hal.erase_flash(APPLICATION_START, 4096), Err(HalError::InvalidState));
    assert_eq!(hal.enter_programming_mode(), Ok(()));
    assert_eq!(hal.erase_flash(APPLICATION_START, 4096), Ok(()));
    assert_eq!(hal.exit_programming_mode(), Ok(()));
    assert_eq!(hal.erase_flash(APPLICATION_START, 4096), Err(HalError::InvalidState));
}

#[test]
fn entry_points_lie_in_range() {
    assert!(openblt::hal::is_entry_point(0x0001_0000));
    assert!(openblt::hal::is_entry_point(0x0001_0001));
    assert!(openblt::hal::is_entry_point(0x00FF_FFFF));
    assert!(!openblt::hal::is_entry_point(0x0000_FFFF));
    assert!(!openblt::hal::is_entry_point(0x0100_0000));
}

#[test]
fn erase_then_checksum_through_the_bootloader() {
    let mut bootloader = bootloader_in_programming();
    deliver(&mut bootloader, range_command(0x05, APPLICATION_START, 4, &[1, 2, 3, 4]));
    deliver(&mut bootloader, range_command(0x04, APPLICATION_START, 4096, &[]));
    deliver(&mut bootloader, range_command(0x07, APPLICATION_START, 4096, &[]));
    deliver(&mut bootloader, range_command(0x07, APPLICATION_START, 4, &[]));
    for _ in 0..4 {
        assert_eq!(bootloader.process(), Ok(()));
    }
    assert_eq!(
        responses(&bootloader),
        vec![vec![0x00], vec![0x00], vec![0, 0, 0, 0], vec![0xFF, 0xFF, 0xFF, 0xFF]]
    );
}
