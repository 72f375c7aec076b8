//! The decisions of the flash controller's command sequences: what a status
//! word means to a wait, and which page or word a walk over a range visits
//! next.

use crate::hal::{address_space, HalError, FLASH_PAGE_SIZE, FLASH_WORD_SIZE};
use vstd::prelude::*;

verus! {

/// Bit of the status word that is set while a command runs.
pub const STATUS_BUSY: u32 = 0x80;

/// Bits of the status word that report a failed command.
pub const STATUS_ERRORS: u32 = 0x30;

/// How often the status word is read before a command counts as stuck.
pub const READY_POLLS: u32 = 1_000_000;

/// Failures of the flash controller's command sequence.
#[derive(Debug, Clone, Copy, PartialEq, Eq, Structural)]
pub enum ControllerError {
    BusyError,
    CommandSequenceError,
    WriteError,
    EraseError,
}

impl ControllerError {
    /// The text of the message that describes this failure.
    pub open spec fn message_text(self) -> Seq<char> {
        match self {
            ControllerError::BusyError => "Busy error"@,
            ControllerError::CommandSequenceError => "Command sequence error"@,
            ControllerError::WriteError => "Write error"@,
            ControllerError::EraseError => "Erase error"@,
        }
    }

    /// Describes this failure in words.
    pub fn message(&self) -> (text: String)
        ensures
            text@ == self.message_text(),
    {
        match self {
            ControllerError::BusyError => "Busy error".to_owned(),
            ControllerError::CommandSequenceError => "Command sequence error".to_owned(),
            ControllerError::WriteError => "Write error".to_owned(),
            ControllerError::EraseError => "Erase error".to_owned(),
        }
    }
}

/// One step of the wait for the controller.
#[derive(Debug, Clone, Copy, PartialEq, Eq, Structural)]
pub enum Poll {
    /// The controller is ready.
    Ready,
    /// The command still runs: read the status word again.
    Again,
    /// The wait is over without the controller being ready.
    Failed(ControllerError),
}

/// What the status word `status` means to a wait that has read the status
/// `polls` times before. While the busy bit is set the wait goes on, and gives
/// up with `BusyError` after `READY_POLLS` readings. With the busy bit clear,
/// an error bit means `CommandSequenceError`, and none means ready.
pub open spec fn status_means(status: u32, polls: u32) -> Poll {
    if status & STATUS_BUSY != 0 {
        if polls >= READY_POLLS {
            Poll::Failed(ControllerError::BusyError)
        } else {
            Poll::Again
        }
    } else if status & STATUS_ERRORS != 0 {
        Poll::Failed(ControllerError::CommandSequenceError)
    } else {
        Poll::Ready
    }
}

/// Decides how the wait for the controller goes on.
pub fn poll_status(status: u32, polls: u32) -> (step: Poll)
    ensures
        step == status_means(status, polls),
{
    if status & STATUS_BUSY != 0 {
        if polls >= READY_POLLS {
            Poll::Failed(ControllerError::BusyError)
        } else {
            Poll::Again
        }
    } else if status & STATUS_ERRORS != 0 {
        Poll::Failed(ControllerError::CommandSequenceError)
    } else {
        Poll::Ready
    }
}

/// One step of a walk over a range of flash.
#[derive(Debug, Clone, Copy, PartialEq, Eq, Structural)]
pub enum Walk {
    /// Act on the page or word at this address next.
    Visit(u32),
    /// Every page or word has been acted on.
    Finished,
    /// The walk is over with a failure.
    Failed(HalError),
}

/// Where a walk over the `length` bytes from `address` in steps of `stride`
/// bytes goes next, after `visited` steps of which the last `failed` or did
/// not. A range that is not made of whole steps, or that leaves the address
/// space, is a `FlashError` before any step; so is a step that failed. The
/// steps go up from `address`, and the walk is finished after `length /
/// stride` of them.
pub open spec fn walk_goes(
    address: u32,
    length: nat,
    stride: u32,
    visited: u32,
    failed: bool,
) -> Walk {
    if address % stride != 0 || length % (stride as nat) != 0 || address + length
        > address_space() {
        Walk::Failed(HalError::FlashError)
    } else if failed {
        Walk::Failed(HalError::FlashError)
    } else if visited * stride >= length {
        Walk::Finished
    } else {
        Walk::Visit((address + visited * stride) as u32)
    }
}

/// Decides where the erasing of the `length` bytes from `address` goes next,
/// page by page.
pub fn erase_walk(address: u32, length: u32, visited: u32, failed: bool) -> (step: Walk)
    ensures
        step == walk_goes(address, length as nat, FLASH_PAGE_SIZE, visited, failed),
{
    if address % FLASH_PAGE_SIZE != 0 || length % FLASH_PAGE_SIZE != 0 || address as u64
        + length as u64 > 0x1_0000_0000 {
        return Walk::Failed(HalError::FlashError);
    }
    if failed {
        return Walk::Failed(HalError::FlashError);
    }
    let done: u64 = visited as u64 * FLASH_PAGE_SIZE as u64;
    if done >= length as u64 {
        Walk::Finished
    } else {
        Walk::Visit((address as u64 + done) as u32)
    }
}

/// Decides where the programming of `length` bytes from `address` goes next,
/// word by word.
pub fn program_walk(address: u32, length: usize, visited: u32, failed: bool) -> (step: Walk)
    ensures
        step == walk_goes(address, length as nat, FLASH_WORD_SIZE, visited, failed),
{
    if address % FLASH_WORD_SIZE != 0 || length % (FLASH_WORD_SIZE as usize) != 0 || length as u64
        > 0x1_0000_0000 - address as u64 {
        return Walk::Failed(HalError::FlashError);
    }
    if failed {
        return Walk::Failed(HalError::FlashError);
    }
    let done: u64 = visited as u64 * FLASH_WORD_SIZE as u64;
    if done >= length as u64 {
        Walk::Finished
    } else {
        Walk::Visit((address as u64 + done) as u32)
    }
}

/// A walk visits exactly the steps of its range, each once and in order: step
/// `visited` is the one that starts `visited` strides into the range.
pub proof fn lemma_walk_covers_range(address: u32, length: nat, stride: u32, visited: u32)
    requires
        stride > 0,
        address % stride == 0,
        length % (stride as nat) == 0,
        address + length <= address_space(),
    ensures
        visited < length / (stride as nat) ==> walk_goes(address, length, stride, visited, false)
            == Walk::Visit((address + visited * stride) as u32),
        visited >= length / (stride as nat) ==> walk_goes(address, length, stride, visited, false)
            == Walk::Finished,
{
    let steps = length / (stride as nat);
    assert(length == steps * stride) by (nonlinear_arith)
        requires
            stride > 0,
            length % (stride as nat) == 0,
            steps == length / (stride as nat),
    ;
    if visited < steps {
        assert(visited * stride < steps * stride) by (nonlinear_arith)
            requires
                visited < steps,
                stride > 0,
        ;
    } else {
        assert(visited * stride >= steps * stride) by (nonlinear_arith)
            requires
                visited >= steps,
                stride > 0,
        ;
    }
}

} // verus!
