//! A software model of the S32K118: its flash held in memory and its CAN
//! controller reduced to two queues, so that the bootloader core runs
//! off-target.

use crate::flash::{Flash, FLASH_BASE, FLASH_SIZE};
use crate::hal::{
    address_space, can_be_entered, erased, is_entry_point, programmed, reported, same_outside,
    Bytes, CanError, CanFrame, EmbeddedCan, HalError, S32KHal, SentFrames,
};
use vstd::prelude::*;

verus! {

/// Number of frames that the controller holds for transmission.
pub const TX_FIFO_DEPTH: usize = 16;

/// Failures of the S32K118 layer.
#[derive(Debug, Clone, Copy, PartialEq, Eq, Structural)]
pub enum Error {
    CanError,
    InitError,
    ConfigError,
}

impl Error {
    /// The text of the message that describes this failure.
    pub open spec fn message_text(self) -> Seq<char> {
        match self {
            Error::CanError => "CAN communication error"@,
            Error::InitError => "Hardware initialization error"@,
            Error::ConfigError => "Invalid configuration"@,
        }
    }

    /// Describes this failure in words.
    pub fn message(&self) -> (text: String)
        ensures
            text@ == self.message_text(),
    {
        match self {
            Error::CanError => "CAN communication error".to_owned(),
            Error::InitError => "Hardware initialization error".to_owned(),
            Error::ConfigError => "Invalid configuration".to_owned(),
        }
    }
}

/// The CAN controller: frames that arrived and wait to be taken, and frames
/// that were handed over for transmission, oldest first.
#[derive(Debug, Clone)]
pub struct S32K118Can {
    pub received: Vec<CanFrame>,
    pub sent: Vec<CanFrame>,
}

impl S32K118Can {
    /// A controller with nothing received and nothing sent.
    pub fn new() -> (can: Self)
        ensures
            can.received@.len() == 0,
            can.sent@.len() == 0,
    {
        Self { received: Vec::new(), sent: Vec::new() }
    }
}

impl EmbeddedCan for S32K118Can {
    open spec fn accepted(&self) -> SentFrames {
        self.sent@.map_values(|frame: CanFrame| frame@)
    }

    /// Queues `frame` behind the frames sent so far; refuses with `TxFifoFull`
    /// once `TX_FIFO_DEPTH` frames wait.
    fn transmit(&mut self, frame: &CanFrame) -> (r: Result<(), CanError>)
        ensures
            final(self).received@ == old(self).received@,
            old(self).sent@.len() >= TX_FIFO_DEPTH ==> r == Err::<(), CanError>(
                CanError::TxFifoFull,
            ) && final(self).sent@ == old(self).sent@,
            old(self).sent@.len() < TX_FIFO_DEPTH ==> r is Ok
                && final(self).sent@.len() == old(self).sent@.len() + 1
                && final(self).sent@.last()@ == frame@
                && final(self).sent@.drop_last() == old(self).sent@,
    {
        if self.sent.len() >= TX_FIFO_DEPTH {
            return Err(CanError::TxFifoFull);
        }
        let mut data: Vec<u8> = Vec::new();
        let mut i: usize = 0;
        while i < frame.data.len()
            invariant
                i <= frame.data@.len(),
                data@ == frame.data@.take(i as int),
            decreases frame.data@.len() - i,
        {
            data.push(frame.data[i]);
            assert(frame.data@.take(i + 1) == frame.data@.take(i as int).push(
                frame.data@[i as int],
            ));
            i += 1;
        }
        assert(frame.data@.take(i as int) == frame.data@);
        self.sent.push(CanFrame { id: frame.id, data });
        assert(self.sent@.drop_last() == old(self).sent@);
        assert(self.accepted() =~= old(self).accepted().push(frame@));
        Ok(())
    }

    /// Takes the oldest received frame. The model does not wait: with nothing
    /// received it reports `RxFifoEmpty` at once.
    fn receive(&mut self, timeout_ms: u32) -> (r: Result<CanFrame, CanError>)
        ensures
            final(self).sent@ == old(self).sent@,
            old(self).received@.len() == 0 ==> r == Err::<CanFrame, CanError>(
                CanError::RxFifoEmpty,
            ) && final(self).received@ == old(self).received@,
            old(self).received@.len() > 0 ==> r == Ok::<CanFrame, CanError>(old(self).received@[0])
                && final(self).received@ == old(self).received@.drop_first(),
    {
        if self.received.len() == 0 {
            return Err(CanError::RxFifoEmpty);
        }
        let frame = self.received.remove(0);
        assert(self.received@ == old(self).received@.drop_first());
        Ok(frame)
    }
}

/// The S32K118 as the bootloader core sees it.
#[derive(Debug, Clone)]
pub struct S32K118Hal {
    can: S32K118Can,
    flash: Flash,
    programming_pin_active: bool,
    programming_mode: bool,
}

impl S32K118Hal {
    /// The CAN controller of the device.
    pub closed spec fn can(&self) -> S32K118Can {
        self.can
    }

    /// The flash device.
    pub closed spec fn storage(&self) -> Flash {
        self.flash
    }

    /// Whether the programming pin is held active.
    pub closed spec fn pin_active(&self) -> bool {
        self.programming_pin_active
    }

    /// Whether the device is prepared for erasing and programming.
    pub closed spec fn in_programming_mode(&self) -> bool {
        self.programming_mode
    }

    /// Whether the device is as reset leaves it: `FLASH_SIZE` bytes of erased
    /// flash at `FLASH_BASE`, nothing received and nothing sent, the programming
    /// pin released, not in programming mode.
    pub open spec fn after_reset(&self) -> bool {
        &&& self.storage().base_address() == FLASH_BASE
        &&& self.storage().size() == FLASH_SIZE
        &&& self.storage()@ == Seq::new(address_space(), |a: int| 0xFFu8)
        &&& self.can().received@.len() == 0
        &&& self.can().sent@.len() == 0
        &&& !self.pin_active()
        &&& !self.in_programming_mode()
    }

    /// A device after reset: flash erased, nothing on the bus, the programming
    /// pin released.
    pub fn new() -> (r: Result<Self, Error>)
        ensures
            r matches Ok(hal) && hal.after_reset(),
    {
        Ok(S32K118Hal::with_flash(Flash::new()))
    }

    /// A device after reset with `flash` as its flash device.
    pub fn with_flash(flash: Flash) -> (hal: Self)
        ensures
            hal.storage() == flash,
            !hal.pin_active(),
            !hal.in_programming_mode(),
            hal.can().received@.len() == 0,
            hal.can().sent@.len() == 0,
    {
        S32K118Hal {
            can: S32K118Can::new(),
            flash,
            programming_pin_active: false,
            programming_mode: false,
        }
    }

    /// The CAN controller of the device.
    pub fn get_can(&self) -> (can: &S32K118Can)
        ensures
            *can == self.can(),
    {
        &self.can
    }

    /// The CAN controller of the device, to deliver frames to it or to take what
    /// it sent.
    pub fn get_can_mut(&mut self) -> (can: &mut S32K118Can)
        ensures
            *can == old(self).can(),
            final(self).can() == *final(can),
            final(self).storage() == old(self).storage(),
            final(self).pin_active() == old(self).pin_active(),
            final(self).in_programming_mode() == old(self).in_programming_mode(),
    {
        &mut self.can
    }

    /// Holds the programming pin active, or releases it.
    pub fn set_programming_pin(&mut self, active: bool)
        ensures
            final(self).pin_active() == active,
            final(self).can() == old(self).can(),
            final(self).storage() == old(self).storage(),
            final(self).in_programming_mode() == old(self).in_programming_mode(),
    {
        self.programming_pin_active = active;
    }
}

impl S32KHal for S32K118Hal {
    type Can = S32K118Can;

    open spec fn flash(&self) -> Bytes {
        self.storage()@
    }

    open spec fn programming_pin(&self) -> bool {
        self.pin_active()
    }

    open spec fn programming_mode(&self) -> bool {
        self.in_programming_mode()
    }

    /// Outside programming mode the model refuses with `InvalidState`; in it,
    /// with `FlashError` where the flash device refuses.
    open spec fn erase_failure(&self, address: u32, length: u32) -> Option<HalError> {
        if !self.in_programming_mode() {
            Some(HalError::InvalidState)
        } else if self.storage().erase_refusal(address, length) is Some {
            Some(HalError::FlashError)
        } else {
            None
        }
    }

    /// Outside programming mode the model refuses with `InvalidState`; in it,
    /// with `FlashError` where the flash device refuses.
    open spec fn program_failure(&self, address: u32, data: Bytes) -> Option<HalError> {
        if !self.in_programming_mode() {
            Some(HalError::InvalidState)
        } else if self.storage().write_refusal(address, data.len()) is Some {
            Some(HalError::FlashError)
        } else {
            None
        }
    }

    /// The model refuses with `FlashError` where the range does not lie in the
    /// flash device.
    open spec fn read_failure(&self, address: u32, length: usize) -> Option<HalError> {
        if self.storage().holds(address as int, length as int) {
            None
        } else {
            Some(HalError::FlashError)
        }
    }

    /// The model refuses with `InvalidState` where the address cannot be
    /// entered.
    open spec fn jump_failure(&self, entry_point: u32) -> Option<HalError> {
        if can_be_entered(entry_point) {
            None
        } else {
            Some(HalError::InvalidState)
        }
    }

    fn init() -> (r: Result<Self, HalError>)
        ensures
            r matches Ok(hal) && hal.after_reset(),
    {
        match S32K118Hal::new() {
            Ok(hal) => Ok(hal),
            Err(_) => Err(HalError::HardwareError),
        }
    }

    fn get_can(self) -> (can: Self::Can)
        ensures
            can == self.can(),
    {
        self.can
    }

    fn is_programming_pin_active(&self) -> (active: bool)
        ensures
            active == self.pin_active(),
    {
        self.programming_pin_active
    }

    /// The model always enters programming mode; nothing else about it
    /// changes.
    fn enter_programming_mode(&mut self) -> (r: Result<(), HalError>)
        ensures
            r is Ok,
            final(self).in_programming_mode(),
            final(self).storage() == old(self).storage(),
            final(self).can() == old(self).can(),
            final(self).pin_active() == old(self).pin_active(),
    {
        self.programming_mode = true;
        Ok(())
    }

    /// The model always leaves programming mode; nothing else about it
    /// changes.
    fn exit_programming_mode(&mut self) -> (r: Result<(), HalError>)
        ensures
            r is Ok,
            !final(self).in_programming_mode(),
            final(self).storage() == old(self).storage(),
            final(self).can() == old(self).can(),
            final(self).pin_active() == old(self).pin_active(),
    {
        self.programming_mode = false;
        Ok(())
    }

    /// A refused erase leaves the flash as it was. An erase changes what the
    /// flash device holds, and nothing else about the model.
    fn erase_flash(&mut self, address: u32, length: u32) -> (r: Result<(), HalError>)
        ensures
            r is Err ==> final(self).flash() == old(self).flash(),
            final(self).storage().base_address() == old(self).storage().base_address(),
            final(self).storage().size() == old(self).storage().size(),
            final(self).in_programming_mode() == old(self).in_programming_mode(),
            final(self).can() == old(self).can(),
            final(self).pin_active() == old(self).pin_active(),
    {
        proof {
            self.flash.lemma_view_covers_address_space();
        }
        if !self.programming_mode {
            return Err(HalError::InvalidState);
        }
        match self.flash.erase(address, length) {
            Ok(()) => Ok(()),
            Err(_) => Err(HalError::FlashError),
        }
    }

    /// A refused write leaves the flash as it was. A write changes what the
    /// flash device holds, and nothing else about the model.
    fn write_flash(&mut self, address: u32, data: &[u8]) -> (r: Result<(), HalError>)
        ensures
            r is Err ==> final(self).flash() == old(self).flash(),
            final(self).storage().base_address() == old(self).storage().base_address(),
            final(self).storage().size() == old(self).storage().size(),
            final(self).in_programming_mode() == old(self).in_programming_mode(),
            final(self).can() == old(self).can(),
            final(self).pin_active() == old(self).pin_active(),
    {
        proof {
            self.flash.lemma_view_covers_address_space();
        }
        if !self.programming_mode {
            return Err(HalError::InvalidState);
        }
        match self.flash.write(address, data) {
            Ok(()) => Ok(()),
            Err(_) => Err(HalError::FlashError),
        }
    }

    /// A refused read leaves `data` as it was.
    fn read_flash(&self, address: u32, data: &mut [u8]) -> (r: Result<(), HalError>)
        ensures
            r is Err ==> final(data)@ == old(data)@,
    {
        proof {
            self.flash.lemma_view_covers_address_space();
        }
        if !self.flash.contains(address, data.len()) {
            return Err(HalError::FlashError);
        }
        match self.flash.read(address, data.len() as u32) {
            Err(_) => Err(HalError::FlashError),
            Ok(bytes) => {
                let mut i: usize = 0;
                while i < data.len()
                    invariant
                        data@.len() == old(data)@.len() == bytes@.len(),
                        i <= data@.len(),
                        forall|j: int| 0 <= j < i ==> data@[j] == bytes@[j],
                    decreases data@.len() - i,
                {
                    data[i] = bytes[i];
                    i += 1;
                }
                assert(data@ =~= bytes@);
                Ok(())
            },
        }
    }

    /// The model has no program to enter: it reports whether the jump would be
    /// made, `Ok` for an address that can be entered and `InvalidState` for any
    /// other.
    fn jump_to_application(&self, entry_point: u32) -> (r: Result<(), HalError>) {
        if !is_entry_point(entry_point) {
            return Err(HalError::InvalidState);
        }
        Ok(())
    }
}

} // verus!
