//! A stretch of memory that the protocol can be pointed at without a memory
//! manager: one range, with the erase and program behaviour of flash.

use crate::flash::Flash;
use crate::hal::{address_space, erased, programmed, FlashError};
use crate::utils::xor_checksum;
use vstd::prelude::*;

verus! {

/// Why an operation on a `Memory` was not carried out.
#[derive(Debug, Clone, Copy, PartialEq, Eq, Structural)]
pub enum MemoryError {
    InvalidAddress,
    InvalidLength,
    WriteError,
    ReadError,
    EraseError,
}

impl MemoryError {
    /// The text of the message that describes this error.
    pub open spec fn message_text(self) -> Seq<char> {
        match self {
            MemoryError::InvalidAddress => "Invalid memory address"@,
            MemoryError::InvalidLength => "Invalid memory length"@,
            MemoryError::WriteError => "Write error"@,
            MemoryError::ReadError => "Read error"@,
            MemoryError::EraseError => "Erase error"@,
        }
    }

    /// Describes this error in words.
    pub fn message(&self) -> (text: String)
        ensures
            text@ == self.message_text(),
    {
        match self {
            MemoryError::InvalidAddress => "Invalid memory address".to_owned(),
            MemoryError::InvalidLength => "Invalid memory length".to_owned(),
            MemoryError::WriteError => "Write error".to_owned(),
            MemoryError::ReadError => "Read error".to_owned(),
            MemoryError::EraseError => "Erase error".to_owned(),
        }
    }
}

/// What a refusal of the flash device means for the three kinds of operation.
pub open spec fn erase_error(e: FlashError) -> MemoryError {
    match e {
        FlashError::InvalidAddress => MemoryError::InvalidAddress,
        FlashError::InvalidLength => MemoryError::InvalidLength,
        _ => MemoryError::EraseError,
    }
}

pub open spec fn write_error(e: FlashError) -> MemoryError {
    match e {
        FlashError::InvalidAddress => MemoryError::InvalidAddress,
        FlashError::InvalidLength => MemoryError::InvalidLength,
        _ => MemoryError::WriteError,
    }
}

pub open spec fn read_error(e: FlashError) -> MemoryError {
    match e {
        FlashError::InvalidAddress => MemoryError::InvalidAddress,
        FlashError::InvalidLength => MemoryError::InvalidLength,
        _ => MemoryError::ReadError,
    }
}

/// `size` bytes of memory from `start_address`.
#[derive(Debug, Clone)]
pub struct Memory {
    flash: Flash,
}

impl Memory {
    /// The flash device that holds the bytes.
    pub closed spec fn storage(&self) -> Flash {
        self.flash
    }

    /// Address of the first byte.
    pub open spec fn start_address(&self) -> u32 {
        self.storage().base_address()
    }

    /// Number of bytes.
    pub open spec fn size(&self) -> u32 {
        self.storage().size()
    }

    /// Erased memory of `size` bytes from `start_address`.
    pub fn new(start_address: u32, size: u32) -> (memory: Self)
        requires
            start_address + size <= address_space(),
        ensures
            memory.start_address() == start_address,
            memory.size() == size,
            memory.storage()@ == Seq::new(address_space(), |a: int| 0xFFu8),
    {
        Self { flash: Flash::with_geometry(start_address, size) }
    }

    /// Erases the `length` bytes from `address`, which must be whole pages of
    /// the memory.
    pub fn erase(&mut self, address: u32, length: u32) -> (r: Result<(), MemoryError>)
        ensures
            final(self).start_address() == old(self).start_address(),
            final(self).size() == old(self).size(),
            r == match old(self).storage().erase_refusal(address, length) {
                Some(e) => Err::<(), MemoryError>(erase_error(e)),
                None => Ok(()),
            },
            final(self).storage()@ == if r is Ok {
                erased(old(self).storage()@, address as int, length as int)
            } else {
                old(self).storage()@
            },
    {
        match self.flash.erase(address, length) {
            Ok(()) => Ok(()),
            Err(FlashError::InvalidAddress) => Err(MemoryError::InvalidAddress),
            Err(FlashError::InvalidLength) => Err(MemoryError::InvalidLength),
            Err(_) => Err(MemoryError::EraseError),
        }
    }

    /// Programs `data` at `address`. The range must be whole words of the
    /// memory.
    pub fn write(&mut self, address: u32, data: &[u8]) -> (r: Result<(), MemoryError>)
        ensures
            final(self).start_address() == old(self).start_address(),
            final(self).size() == old(self).size(),
            r == match old(self).storage().write_refusal(address, data@.len()) {
                Some(e) => Err::<(), MemoryError>(write_error(e)),
                None => Ok(()),
            },
            final(self).storage()@ == if r is Ok {
                programmed(old(self).storage()@, address as int, data@)
            } else {
                old(self).storage()@
            },
    {
        match self.flash.write(address, data) {
            Ok(()) => Ok(()),
            Err(FlashError::InvalidAddress) => Err(MemoryError::InvalidAddress),
            Err(FlashError::InvalidLength) => Err(MemoryError::InvalidLength),
            Err(_) => Err(MemoryError::WriteError),
        }
    }

    /// Reads the `length` bytes from `address`.
    pub fn read(&mut self, address: u32, length: u32) -> (r: Result<Vec<u8>, MemoryError>)
        ensures
            *final(self) == *old(self),
            r is Ok <==> old(self).storage().holds(address as int, length as int),
            r matches Ok(data) ==> data@ == old(self).storage()@.subrange(
                address as int,
                address + length,
            ),
            r matches Err(e) ==> e == MemoryError::InvalidAddress,
    {
        match self.flash.read(address, length) {
            Ok(data) => Ok(data),
            Err(_) => Err(MemoryError::InvalidAddress),
        }
    }

    /// Exclusive-or of the little-endian words in the `length` bytes from
    /// `address`.
    pub fn calculate_checksum(&mut self, address: u32, length: u32) -> (r: Result<
        u32,
        MemoryError,
    >)
        ensures
            *final(self) == *old(self),
            r == match old(self).storage().checksum_refusal(address, length) {
                Some(e) => Err::<u32, MemoryError>(read_error(e)),
                None => Ok(
                    xor_checksum(old(self).storage()@.subrange(address as int, address + length)),
                ),
            },
    {
        match self.flash.calculate_checksum(address, length) {
            Ok(checksum) => Ok(checksum),
            Err(FlashError::InvalidAddress) => Err(MemoryError::InvalidAddress),
            Err(FlashError::InvalidLength) => Err(MemoryError::InvalidLength),
            Err(_) => Err(MemoryError::ReadError),
        }
    }
}

} // verus!
