//! The hardware capabilities that the bootloader core consumes, and the model of
//! flash storage that their contracts are stated over.

use vstd::prelude::*;

verus! {

/// Size of one flash erase page in bytes.
pub const FLASH_PAGE_SIZE: u32 = 4096;

/// Size of one flash programming word in bytes.
pub const FLASH_WORD_SIZE: u32 = 4;

/// What every byte of an erased page reads as.
pub const ERASED_BYTE: u8 = 0xFF;

/// Number of byte addresses that a 32-bit address can name.
pub open spec fn address_space() -> nat {
    0x1_0000_0000
}

/// Flash contents after the `length` bytes from `address` have been erased.
pub open spec fn erased(flash: Seq<u8>, address: int, length: int) -> Seq<u8> {
    Seq::new(
        flash.len(),
        |a: int|
            if address <= a < address + length {
                ERASED_BYTE
            } else {
                flash[a]
            },
    )
}

/// Flash contents after `data` has been programmed at `address`. Programming can
/// only clear bits, so every cell ends up as the conjunction of what it held and
/// what was written to it.
pub open spec fn programmed(flash: Seq<u8>, address: int, data: Seq<u8>) -> Seq<u8> {
    Seq::new(
        flash.len(),
        |a: int|
            if address <= a < address + data.len() {
                flash[a] & data[a - address]
            } else {
                flash[a]
            },
    )
}

/// `after` holds what `before` held at every address outside the `length` bytes
/// from `address`.
pub open spec fn same_outside(before: Seq<u8>, after: Seq<u8>, address: int, length: int) -> bool {
    &&& after.len() == before.len()
    &&& forall|a: int|
        0 <= a < before.len() && !(address <= a < address + length) ==> #[trigger] after[a]
            == before[a]
}

/// Programming a range with the bytes that it already holds changes nothing.
pub proof fn lemma_programming_stored_bytes(flash: Seq<u8>, address: int, data: Seq<u8>)
    requires
        0 <= address,
        address + data.len() <= flash.len(),
        flash.subrange(address, address + data.len()) == data,
    ensures
        programmed(flash, address, data) == flash,
{
    let after = programmed(flash, address, data);
    assert forall|a: int| 0 <= a < flash.len() implies after[a] == flash[a] by {
        if address <= a < address + data.len() {
            let held = flash[a];
            assert(flash.subrange(address, address + data.len())[a - address] == held);
            assert(held & held == held) by (bit_vector);
        }
    }
    assert(after =~= flash);
}

/// Programming the same bytes a second time changes nothing.
pub proof fn lemma_programming_twice(flash: Seq<u8>, address: int, data: Seq<u8>)
    ensures
        programmed(programmed(flash, address, data), address, data) == programmed(
            flash,
            address,
            data,
        ),
{
    let once = programmed(flash, address, data);
    let twice = programmed(once, address, data);
    assert forall|a: int| 0 <= a < flash.len() implies twice[a] == once[a] by {
        if address <= a < address + data.len() {
            let held = flash[a];
            let written = data[a - address];
            assert((held & written) & written == held & written) by (bit_vector);
        }
    }
    assert(twice =~= once);
}

/// An erased range reads back as whatever is programmed into it.
pub proof fn lemma_programming_erased_range(flash: Seq<u8>, address: int, data: Seq<u8>)
    requires
        0 <= address,
        address + data.len() <= flash.len(),
    ensures
        programmed(erased(flash, address, data.len() as int), address, data).subrange(
            address,
            address + data.len(),
        ) == data,
{
    let blank = erased(flash, address, data.len() as int);
    let stored = programmed(blank, address, data).subrange(address, address + data.len());
    assert forall|i: int| 0 <= i < data.len() implies stored[i] == data[i] by {
        let written = data[i];
        assert(blank[address + i] == ERASED_BYTE);
        assert(0xFFu8 & written == written) by (bit_vector);
    }
    assert(stored =~= data);
}

/// Failures reported by a hardware abstraction layer.
#[derive(Debug, Clone, Copy, PartialEq, Eq, Structural)]
pub enum HalError {
    InvalidState,
    HardwareError,
    FlashError,
    CanError,
}

impl HalError {
    /// The text of the message that describes this failure.
    pub open spec fn message_text(self) -> Seq<char> {
        match self {
            HalError::InvalidState => "Invalid hardware state"@,
            HalError::HardwareError => "Hardware error"@,
            HalError::FlashError => "Flash error"@,
            HalError::CanError => "CAN error"@,
        }
    }

    /// Describes this failure in words.
    pub fn message(&self) -> (text: String)
        ensures
            text@ == self.message_text(),
    {
        match self {
            HalError::InvalidState => "Invalid hardware state".to_owned(),
            HalError::HardwareError => "Hardware error".to_owned(),
            HalError::FlashError => "Flash error".to_owned(),
            HalError::CanError => "CAN error".to_owned(),
        }
    }
}

/// Failures reported by a flash device.
#[derive(Debug, Clone, Copy, PartialEq, Eq, Structural)]
pub enum FlashError {
    InvalidAddress,
    InvalidLength,
    WriteError,
    EraseError,
    ReadError,
    Busy,
    Timeout,
}

impl FlashError {
    /// The text of the message that describes this failure.
    pub open spec fn message_text(self) -> Seq<char> {
        match self {
            FlashError::InvalidAddress => "Invalid flash address"@,
            FlashError::InvalidLength => "Invalid flash length"@,
            FlashError::WriteError => "Flash write error"@,
            FlashError::EraseError => "Flash erase error"@,
            FlashError::ReadError => "Flash read error"@,
            FlashError::Busy => "Flash controller busy"@,
            FlashError::Timeout => "Flash operation timeout"@,
        }
    }

    /// Describes this failure in words.
    pub fn message(&self) -> (text: String)
        ensures
            text@ == self.message_text(),
    {
        match self {
            FlashError::InvalidAddress => "Invalid flash address".to_owned(),
            FlashError::InvalidLength => "Invalid flash length".to_owned(),
            FlashError::WriteError => "Flash write error".to_owned(),
            FlashError::EraseError => "Flash erase error".to_owned(),
            FlashError::ReadError => "Flash read error".to_owned(),
            FlashError::Busy => "Flash controller busy".to_owned(),
            FlashError::Timeout => "Flash operation timeout".to_owned(),
        }
    }
}

/// Failures reported by a CAN controller.
#[derive(Debug, Clone, Copy, PartialEq, Eq, Structural)]
pub enum CanError {
    TxFifoFull,
    RxFifoEmpty,
    InvalidId,
    InvalidLength,
    BusOff,
    Error,
    BitError,
    StuffError,
    FormError,
    AcknowledgmentError,
    Wakeup,
    TransmitError,
    ReceiveError,
    Unknown,
}

/// One frame on the bus: an identifier and its payload.
#[derive(Debug, Clone, PartialEq, Eq)]
pub struct CanFrame {
    pub id: u32,
    pub data: Vec<u8>,
}

impl View for CanFrame {
    type V = (u32, Seq<u8>);

    /// The identifier and the payload.
    open spec fn view(&self) -> (u32, Seq<u8>) {
        (self.id, self.data@)
    }
}

/// The frames that a CAN interface has accepted, each as its identifier and
/// its payload.
pub type SentFrames = Seq<(u32, Seq<u8>)>;

/// A CAN interface that can send a frame and wait a bounded time for one.
/// `accepted` is the record of what it has sent, as the core sees it. An
/// implementation that Verus does not see takes the contracts on as promises
/// about its hardware.
pub trait EmbeddedCan {
    /// Every frame that the interface has accepted for transmission, oldest
    /// first.
    spec fn accepted(&self) -> SentFrames;

    /// Hands `frame` to the controller for transmission.
    fn transmit(&mut self, frame: &CanFrame) -> (r: Result<(), CanError>)
        ensures
            r is Ok ==> final(self).accepted() == old(self).accepted().push(frame@),
            r is Err ==> final(self).accepted() == old(self).accepted(),
    ;

    /// Takes the next received frame, waiting at most `timeout_ms` milliseconds.
    fn receive(&mut self, timeout_ms: u32) -> (r: Result<CanFrame, CanError>)
        ensures
            final(self).accepted() == old(self).accepted(),
    ;
}

/// Bytes as the contracts speak of them: what flash holds, or what is to be
/// programmed.
pub type Bytes = Seq<u8>;

/// Lowest address that a program can be entered at.
pub const ENTRY_POINT_MIN: u32 = 0x0001_0000;

/// Highest address that a program can be entered at.
pub const ENTRY_POINT_MAX: u32 = 0x00FF_FFFF;

/// Whether a program can be entered at `entry_point`: the address lies from
/// `ENTRY_POINT_MIN` to `ENTRY_POINT_MAX`.
pub open spec fn can_be_entered(entry_point: u32) -> bool {
    ENTRY_POINT_MIN <= entry_point <= ENTRY_POINT_MAX
}

/// Tells whether a program can be entered at `entry_point`.
pub fn is_entry_point(entry_point: u32) -> (allowed: bool)
    ensures
        allowed == can_be_entered(entry_point),
{
    ENTRY_POINT_MIN <= entry_point && entry_point <= ENTRY_POINT_MAX
}

/// What an operation of the device gives where `failure` says why it fails, if
/// it does.
pub open spec fn reported(failure: Option<HalError>) -> Result<(), HalError> {
    match failure {
        None => Ok(()),
        Some(e) => Err(e),
    }
}

/// The storage, pin and control capabilities of one S32K microcontroller.
///
/// The spec functions are the device as the core sees it: what its flash
/// holds, how its pin stands, and why an operation on its flash fails, if it
/// does. The contracts say what each operation gives and how it may change the
/// flash. An implementation that Verus does not see takes them on as promises
/// about its hardware.
pub trait S32KHal: Sized {
    type Can: EmbeddedCan;

    /// What the flash of the device holds, by address.
    spec fn flash(&self) -> Bytes;

    /// Whether the pin that requests programming is held active.
    spec fn programming_pin(&self) -> bool;

    /// Whether the device is prepared for erasing and programming.
    spec fn programming_mode(&self) -> bool;

    /// Why the device fails to erase the `length` bytes from `address`, if it
    /// does.
    spec fn erase_failure(&self, address: u32, length: u32) -> Option<HalError>;

    /// Why the device fails to program `data` at `address`, if it does.
    spec fn program_failure(&self, address: u32, data: Bytes) -> Option<HalError>;

    /// Why the device fails to give up the `length` bytes from `address`, if
    /// it does.
    spec fn read_failure(&self, address: u32, length: usize) -> Option<HalError>;

    /// Why the jump to the program whose entry point is `entry_point` comes
    /// back, if it does.
    spec fn jump_failure(&self, entry_point: u32) -> Option<HalError>;

    /// Brings the hardware up.
    fn init() -> Result<Self, HalError>;

    /// Gives up the device and keeps its CAN interface.
    fn get_can(self) -> Self::Can;

    /// Tells whether the pin that requests programming is held active.
    fn is_programming_pin_active(&self) -> (active: bool)
        ensures
            active == self.programming_pin(),
    ;

    /// Prepares the device for erasing and programming.
    fn enter_programming_mode(&mut self) -> (r: Result<(), HalError>)
        ensures
            final(self).flash() == old(self).flash(),
            r is Ok ==> final(self).programming_mode(),
    ;

    /// Leaves the state that `enter_programming_mode` set up.
    fn exit_programming_mode(&mut self) -> (r: Result<(), HalError>)
        ensures
            final(self).flash() == old(self).flash(),
            r is Ok ==> !final(self).programming_mode(),
    ;

    /// Erases `length` bytes from `address`. A failed erase may leave the bytes
    /// it was asked to erase in any state, and no others. Nothing but what
    /// flash holds changes.
    fn erase_flash(&mut self, address: u32, length: u32) -> (r: Result<(), HalError>)
        ensures
            r == reported(old(self).erase_failure(address, length)),
            final(self).programming_pin() == old(self).programming_pin(),
            final(self).programming_mode() == old(self).programming_mode(),
            forall|a: u32, l: u32| #[trigger]
                final(self).erase_failure(a, l) == old(self).erase_failure(a, l),
            forall|a: u32, d: Bytes| #[trigger]
                final(self).program_failure(a, d) == old(self).program_failure(a, d),
            forall|a: u32, l: usize| #[trigger]
                final(self).read_failure(a, l) == old(self).read_failure(a, l),
            r is Ok ==> final(self).flash() == erased(
                old(self).flash(),
                address as int,
                length as int,
            ),
            same_outside(old(self).flash(), final(self).flash(), address as int, length as int),
    ;

    /// Programs `data` at `address`. A failed write may leave the bytes it was
    /// asked to program in any state, and no others. Nothing but what flash
    /// holds changes.
    fn write_flash(&mut self, address: u32, data: &[u8]) -> (r: Result<(), HalError>)
        ensures
            r == reported(old(self).program_failure(address, data@)),
            final(self).programming_pin() == old(self).programming_pin(),
            final(self).programming_mode() == old(self).programming_mode(),
            forall|a: u32, l: u32| #[trigger]
                final(self).erase_failure(a, l) == old(self).erase_failure(a, l),
            forall|a: u32, d: Bytes| #[trigger]
                final(self).program_failure(a, d) == old(self).program_failure(a, d),
            forall|a: u32, l: usize| #[trigger]
                final(self).read_failure(a, l) == old(self).read_failure(a, l),
            r is Ok ==> final(self).flash() == programmed(
                old(self).flash(),
                address as int,
                data@,
            ),
            same_outside(
                old(self).flash(),
                final(self).flash(),
                address as int,
                data@.len() as int,
            ),
    ;

    /// Fills `data` with the bytes stored from `address`.
    fn read_flash(&self, address: u32, data: &mut [u8]) -> (r: Result<(), HalError>)
        ensures
            final(data)@.len() == old(data)@.len(),
            r == reported(self.read_failure(address, old(data)@.len() as usize)),
            r is Ok ==> address + old(data)@.len() <= self.flash().len() && final(data)@
                == self.flash().subrange(address as int, address + old(data)@.len()),
    ;

    /// Hands control to the program whose entry point is `entry_point`. On
    /// hardware it comes back only where the jump could not be made; a model
    /// of the hardware comes back with `Ok` where the jump would be made. No
    /// jump is made to an address that cannot be entered.
    fn jump_to_application(&self, entry_point: u32) -> (r: Result<(), HalError>)
        ensures
            r == reported(self.jump_failure(entry_point)),
            r is Ok ==> can_be_entered(entry_point),
    ;
}

/// Whether the device `after` stands as the device `before` did in all but
/// what its flash holds: the pin, the programming mode, and why an operation
/// on its flash fails, if it does.
pub open spec fn behaves_alike<H: S32KHal>(before: &H, after: &H) -> bool {
    &&& after.programming_pin() == before.programming_pin()
    &&& after.programming_mode() == before.programming_mode()
    &&& forall|address: u32, length: u32| #[trigger]
        after.erase_failure(address, length) == before.erase_failure(address, length)
    &&& forall|address: u32, data: Bytes| #[trigger]
        after.program_failure(address, data) == before.program_failure(address, data)
    &&& forall|address: u32, length: usize| #[trigger]
        after.read_failure(address, length) == before.read_failure(address, length)
}

} // verus!
