//! A flash device held in memory, with the erase and program behaviour of NOR
//! flash.

use crate::hal::{
    address_space, erased, programmed, FlashError, ERASED_BYTE, FLASH_PAGE_SIZE, FLASH_WORD_SIZE,
};
use crate::utils::{calculate_checksum, xor_checksum};
use vstd::prelude::*;

verus! {

/// Address of the first byte of the device.
pub const FLASH_BASE: u32 = 0x0000_0000;

/// Number of bytes that the device holds.
pub const FLASH_SIZE: u32 = 0x1000_0000;

/// A flash device of `size` bytes from `base_address`.
///
/// Only the cells up to the highest one ever programmed are stored; the rest of
/// the device is erased.
#[derive(Debug)]
pub struct Flash {
    base_address: u32,
    size: u32,
    cells: Vec<u8>,
}

impl Flash {
    #[verifier::type_invariant]
    spec fn well_formed(self) -> bool {
        &&& self.base_address + self.size <= address_space()
        &&& self.cells@.len() <= self.size
    }

    /// Address of the first byte of the device.
    pub closed spec fn base_address(&self) -> u32 {
        self.base_address
    }

    /// Number of bytes that the device holds. A device ends within the address
    /// space; of a value that is no device, the bytes that do are counted.
    pub closed spec fn size(&self) -> u32 {
        if self.base_address + self.size <= address_space() {
            self.size
        } else {
            (address_space() - self.base_address) as u32
        }
    }

    /// A device ends within the address space.
    pub proof fn lemma_device_is_bounded(&self)
        ensures
            self.base_address() + self.size() <= address_space(),
    {
    }

    /// The byte stored at `address`; an address outside the device reads as
    /// erased.
    pub closed spec fn byte_at(&self, address: int) -> u8 {
        let offset = address - self.base_address;
        if 0 <= offset < self.cells@.len() {
            self.cells@[offset]
        } else {
            ERASED_BYTE
        }
    }

    /// Whether the `length` bytes from `address` all lie in the device.
    pub open spec fn holds(&self, address: int, length: int) -> bool {
        self.base_address() <= address && address + length <= self.base_address() + self.size()
    }
}

impl View for Flash {
    type V = Seq<u8>;

    /// One byte for every 32-bit address.
    closed spec fn view(&self) -> Seq<u8> {
        Seq::new(address_space(), |a: int| self.byte_at(a))
    }
}

impl Clone for Flash {
    /// A second device with the same place, size and contents.
    fn clone(&self) -> (copy: Self)
        ensures
            copy.base_address() == self.base_address(),
            copy.size() == self.size(),
            copy@ == self@,
    {
        proof {
            use_type_invariant(self);
        }
        let mut cells: Vec<u8> = Vec::new();
        let mut i: usize = 0;
        while i < self.cells.len()
            invariant
                i <= self.cells@.len(),
                cells@ == self.cells@.take(i as int),
            decreases self.cells@.len() - i,
        {
            cells.push(self.cells[i]);
            assert(self.cells@.take(i + 1) == self.cells@.take(i as int).push(
                self.cells@[i as int],
            ));
            i += 1;
        }
        assert(self.cells@.take(i as int) == self.cells@);
        let copy = Flash { base_address: self.base_address, size: self.size, cells };
        assert(copy@ =~= self@);
        copy
    }
}

impl Flash {
    /// An erased device of `size` bytes at `base_address`.
    pub fn with_geometry(base_address: u32, size: u32) -> (flash: Flash)
        requires
            base_address + size <= address_space(),
        ensures
            flash.base_address() == base_address,
            flash.size() == size,
            flash@ == Seq::new(address_space(), |a: int| ERASED_BYTE),
    {
        let flash = Flash { base_address, size, cells: Vec::new() };
        assert(flash@ =~= Seq::new(address_space(), |a: int| ERASED_BYTE));
        flash
    }

    /// An erased device of `FLASH_SIZE` bytes at `FLASH_BASE`.
    pub fn new() -> (flash: Flash)
        ensures
            flash.base_address() == FLASH_BASE,
            flash.size() == FLASH_SIZE,
            flash@ == Seq::new(address_space(), |a: int| ERASED_BYTE),
    {
        Flash::with_geometry(FLASH_BASE, FLASH_SIZE)
    }
}

impl Flash {
    /// Why `erase` refuses a range, if it does: the range must lie in the device
    /// and be made of whole pages.
    pub open spec fn erase_refusal(&self, address: u32, length: u32) -> Option<FlashError> {
        if !self.holds(address as int, length as int) || address % FLASH_PAGE_SIZE != 0 {
            Some(FlashError::InvalidAddress)
        } else if length % FLASH_PAGE_SIZE != 0 {
            Some(FlashError::InvalidLength)
        } else {
            None
        }
    }

    /// Why `write` refuses a range, if it does: the range must lie in the device
    /// and be made of whole words.
    pub open spec fn write_refusal(&self, address: u32, length: nat) -> Option<FlashError> {
        if !self.holds(address as int, length as int) || address % FLASH_WORD_SIZE != 0 {
            Some(FlashError::InvalidAddress)
        } else if length % (FLASH_WORD_SIZE as nat) != 0 {
            Some(FlashError::InvalidLength)
        } else {
            None
        }
    }

    /// Why `calculate_checksum` refuses a range, if it does.
    pub open spec fn checksum_refusal(&self, address: u32, length: u32) -> Option<FlashError> {
        if !self.holds(address as int, length as int) {
            Some(FlashError::InvalidAddress)
        } else if length % FLASH_WORD_SIZE != 0 {
            Some(FlashError::InvalidLength)
        } else {
            None
        }
    }

    /// Erases the pages that make up the `length` bytes from `address`.
    pub fn erase(&mut self, address: u32, length: u32) -> (r: Result<(), FlashError>)
        ensures
            final(self).base_address() == old(self).base_address(),
            final(self).size() == old(self).size(),
            r == match old(self).erase_refusal(address, length) {
                Some(e) => Err::<(), FlashError>(e),
                None => Ok(()),
            },
            final(self)@ == if r is Ok {
                erased(old(self)@, address as int, length as int)
            } else {
                old(self)@
            },
    {
        proof {
            use_type_invariant(&*self);
        }
        if !self.contains(address, length as usize) || address % FLASH_PAGE_SIZE != 0 {
            return Err(FlashError::InvalidAddress);
        }
        if length % FLASH_PAGE_SIZE != 0 {
            return Err(FlashError::InvalidLength);
        }
        let first: usize = (address - self.base_address) as usize;
        let stored: usize = self.cells.len();
        let stop: usize = if first + length as usize <= stored {
            first + length as usize
        } else {
            stored
        };
        let mut i: usize = first;
        while i < stop
            invariant
                self.base_address == old(self).base_address,
                self.size == old(self).size,
                self.base_address + self.size <= address_space(),
                self.cells@.len() == stored == old(self).cells@.len(),
                stored <= self.size,
                stop <= stored,
                first <= i,
                i <= stop || i == first,
                forall|j: int|
                    0 <= j < stored ==> self.cells@[j] == if first <= j < i {
                        ERASED_BYTE
                    } else {
                        old(self).cells@[j]
                    },
            decreases stop - i,
        {
            self.cells[i] = ERASED_BYTE;
            i += 1;
        }
        assert(self@ =~= erased(old(self)@, address as int, length as int));
        Ok(())
    }

    /// Programs `data` at `address`: every cell keeps only the bits that are set
    /// both in it and in the byte written to it.
    pub fn write(&mut self, address: u32, data: &[u8]) -> (r: Result<(), FlashError>)
        ensures
            final(self).base_address() == old(self).base_address(),
            final(self).size() == old(self).size(),
            r == match old(self).write_refusal(address, data@.len()) {
                Some(e) => Err::<(), FlashError>(e),
                None => Ok(()),
            },
            final(self)@ == if r is Ok {
                programmed(old(self)@, address as int, data@)
            } else {
                old(self)@
            },
    {
        proof {
            use_type_invariant(&*self);
        }
        if !self.contains(address, data.len()) || address % FLASH_WORD_SIZE != 0 {
            return Err(FlashError::InvalidAddress);
        }
        if data.len() % (FLASH_WORD_SIZE as usize) != 0 {
            return Err(FlashError::InvalidLength);
        }
        let first: usize = (address - self.base_address) as usize;
        let end: usize = first + data.len();
        let mut cells: Vec<u8> = Vec::new();
        std::mem::swap(&mut self.cells, &mut cells);
        while cells.len() < end
            invariant
                end <= self.size,
                old(self).cells@.len() <= cells@.len() <= self.size,
                cells@.len() > old(self).cells@.len() ==> cells@.len() <= end,
                forall|j: int|
                    0 <= j < cells@.len() ==> cells@[j] == if j < old(self).cells@.len() {
                        old(self).cells@[j]
                    } else {
                        ERASED_BYTE
                    },
            decreases end - cells@.len(),
        {
            cells.push(ERASED_BYTE);
        }
        let ghost padded = cells@;
        let mut i: usize = 0;
        while i < data.len()
            invariant
                first + data@.len() == end <= padded.len() == cells@.len(),
                i <= data@.len(),
                forall|j: int|
                    0 <= j < padded.len() ==> cells@[j] == if first <= j < first + i {
                        padded[j] & data@[j - first]
                    } else {
                        padded[j]
                    },
            decreases data@.len() - i,
        {
            let cell: u8 = cells[first + i];
            cells[first + i] = cell & data[i];
            i += 1;
        }
        std::mem::swap(&mut self.cells, &mut cells);
        assert(self@ =~= programmed(old(self)@, address as int, data@));
        Ok(())
    }

    /// Reads the `length` bytes from `address`.
    pub fn read(&self, address: u32, length: u32) -> (r: Result<Vec<u8>, FlashError>)
        ensures
            r is Ok <==> self.holds(address as int, length as int),
            r matches Ok(data) ==> data@ == self@.subrange(address as int, address + length),
            r matches Err(e) ==> e == FlashError::InvalidAddress,
    {
        proof {
            use_type_invariant(self);
        }
        if !self.contains(address, length as usize) {
            return Err(FlashError::InvalidAddress);
        }
        let first: usize = (address - self.base_address) as usize;
        let mut data: Vec<u8> = Vec::new();
        let mut i: usize = 0;
        while i < length as usize
            invariant
                self.base_address + self.size <= address_space(),
                self.cells@.len() <= self.size,
                first == address - self.base_address,
                first + length <= self.size,
                i <= length,
                data@.len() == i,
                forall|j: int| 0 <= j < i ==> data@[j] == self.byte_at(address + j),
            decreases length - i,
        {
            let byte: u8 = if first + i < self.cells.len() {
                self.cells[first + i]
            } else {
                ERASED_BYTE
            };
            data.push(byte);
            i += 1;
        }
        assert(data@ =~= self@.subrange(address as int, address + length));
        Ok(data)
    }

    /// Exclusive-or of the little-endian words in the `length` bytes from
    /// `address`.
    pub fn calculate_checksum(&self, address: u32, length: u32) -> (r: Result<u32, FlashError>)
        ensures
            r == match self.checksum_refusal(address, length) {
                Some(e) => Err::<u32, FlashError>(e),
                None => Ok(xor_checksum(self@.subrange(address as int, address + length))),
            },
    {
        match self.read(address, length) {
            Err(e) => Err(e),
            Ok(data) => {
                if length % FLASH_WORD_SIZE != 0 {
                    Err(FlashError::InvalidLength)
                } else {
                    Ok(calculate_checksum(data.as_slice()))
                }
            },
        }
    }

    /// The view has one byte for every 32-bit address.
    pub proof fn lemma_view_covers_address_space(&self)
        ensures
            self@.len() == address_space(),
    {
    }

    /// Tells whether the `length` bytes from `address` all lie in the device.
    pub fn contains(&self, address: u32, length: usize) -> (inside: bool)
        ensures
            inside == self.holds(address as int, length as int),
            inside ==> address + length <= address_space(),
    {
        proof {
            use_type_invariant(self);
        }
        address >= self.base_address && length <= self.size as usize && address
            - self.base_address <= self.size - length as u32
    }
}

} // verus!
