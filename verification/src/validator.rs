//! Decides whether the application region holds an image that can be run, and
//! computes checksums over stored ranges.

use crate::hal::{S32KHal, FLASH_WORD_SIZE};
use crate::memory::{hands_on, MemoryManagementError, MemoryManager, MemoryRegion};
use crate::utils::{
    bytes_to_u32, calculate_checksum, le_value, lemma_le_value_bound, lemma_le_value_of_four,
    lemma_pow256_small, xor_checksum, zeroed,
};
use vstd::prelude::*;
use vstd::slice::slice_subrange;

verus! {

/// Address of the first byte of RAM.
pub const RAM_START: u32 = 0x1FFE_0000;

/// Address just past the last byte of RAM, where an empty stack starts.
pub const RAM_END: u32 = 0x2001_F000;

/// What a word of erased flash reads as.
pub const ERASED_WORD: u32 = 0xFFFF_FFFF;

/// The little-endian word stored at `address`.
pub open spec fn stored_word(flash: Seq<u8>, address: int) -> u32 {
    le_value(flash.subrange(address, address + 4)) as u32
}

/// Whether a vector table that starts with `stack_pointer` and `reset_vector`
/// can belong to a program in `application`: neither word is erased flash, the
/// stack pointer lies in RAM, and the reset vector lies in the region.
pub open spec fn vector_table_accepted(
    stack_pointer: u32,
    reset_vector: u32,
    application: MemoryRegion,
) -> bool {
    &&& stack_pointer != ERASED_WORD
    &&& reset_vector != ERASED_WORD
    &&& RAM_START <= stack_pointer <= RAM_END
    &&& application.covers(reset_vector as int)
}

/// Whether the first two words of `application` in `flash` make an accepted
/// vector table.
pub open spec fn image_is_runnable(flash: Seq<u8>, application: MemoryRegion) -> bool {
    &&& application.size() >= 8
    &&& vector_table_accepted(
        stored_word(flash, application.start()),
        stored_word(flash, application.start() + 4),
        application,
    )
}

/// An application region that starts with a word of erased flash holds no
/// runnable image.
pub proof fn lemma_erased_image_is_not_runnable(flash: Seq<u8>, application: MemoryRegion)
    requires
        0 <= application.start(),
        application.start() + 4 <= flash.len(),
        forall|a: int|
            application.start() <= a < application.start() + 4 ==> flash[a] == 0xFF,
    ensures
        !image_is_runnable(flash, application),
{
    let table = flash.subrange(application.start(), application.start() + 4);
    lemma_le_value_of_four(table);
    assert(table[0] == 0xFF && table[1] == 0xFF && table[2] == 0xFF && table[3] == 0xFF);
}

/// Whether the device gives up the vector table, the first eight bytes of the
/// application region, when it is read.
pub open spec fn table_is_readable<H: S32KHal>(memory: &MemoryManager<H>) -> bool {
    memory.application_region().size() >= 8 && memory.device().read_failure(
        memory.application_region().start() as u32,
        8,
    ) is None
}

/// The address at which the application is entered: the reset vector of a
/// runnable image whose vector table can be read, and none otherwise.
pub open spec fn entry_point<H: S32KHal>(memory: &MemoryManager<H>) -> Option<u32> {
    if table_is_readable(memory) && image_is_runnable(
        memory.flash(),
        memory.application_region(),
    ) {
        Some(stored_word(memory.flash(), memory.application_region().start() + 4))
    } else {
        None
    }
}

/// Why `FirmwareValidator::calculate_checksum` refuses a range, if it does: the
/// range must be whole words in one region.
pub open spec fn checksum_refusal<H: S32KHal>(
    memory: &MemoryManager<H>,
    address: u32,
    length: u32,
) -> Option<MemoryManagementError> {
    if length % FLASH_WORD_SIZE != 0 {
        Some(MemoryManagementError::RegionNotAligned)
    } else {
        memory.read_refusal(address, length as nat)
    }
}

/// Checks what is stored before it is run or reported.
pub struct FirmwareValidator;

impl FirmwareValidator {
    /// Tells whether a vector table that starts with `stack_pointer` and
    /// `reset_vector` can belong to a program in `application`.
    pub fn check_vector_table(
        stack_pointer: u32,
        reset_vector: u32,
        application: &MemoryRegion,
    ) -> (accepted: bool)
        ensures
            accepted == vector_table_accepted(stack_pointer, reset_vector, *application),
    {
        stack_pointer != ERASED_WORD && reset_vector != ERASED_WORD && RAM_START <= stack_pointer
            && stack_pointer <= RAM_END && application.contains(reset_vector)
    }

    /// The address at which the application is entered: the reset vector of an
    /// accepted vector table. There is none where the table is not accepted or
    /// cannot be read.
    pub fn application_entry_point<H: S32KHal>(memory: &MemoryManager<H>) -> (entry: Option<u32>)
        ensures
            entry == entry_point(memory),
            entry matches Some(reset_vector) ==> image_is_runnable(
                memory.flash(),
                memory.application_region(),
            ) && reset_vector == stored_word(
                memory.flash(),
                memory.application_region().start() + 4,
            ),
            !image_is_runnable(memory.flash(), memory.application_region()) ==> entry is None,
    {
        let application = memory.get_application_region();
        if memory.get_application_size() < 8 {
            return None;
        }
        let mut table = zeroed(8);
        match memory.read(memory.get_application_start(), table.as_mut_slice()) {
            Err(_) => None,
            Ok(()) => {
                let stack_pointer = bytes_to_u32(slice_subrange(table.as_slice(), 0, 4));
                let reset_vector = bytes_to_u32(slice_subrange(table.as_slice(), 4, 8));
                proof {
                    let start = memory.application_region().start();
                    lemma_pow256_small();
                    lemma_le_value_bound(table@.subrange(0, 4));
                    lemma_le_value_bound(table@.subrange(4, 8));
                    assert(table@.subrange(0, 4) == memory.flash().subrange(start, start + 4));
                    assert(table@.subrange(4, 8) == memory.flash().subrange(
                        start + 4,
                        start + 8,
                    ));
                }
                if Self::check_vector_table(stack_pointer, reset_vector, &application) {
                    Some(reset_vector)
                } else {
                    None
                }
            },
        }
    }

    /// Tells whether the application region starts with an accepted vector
    /// table. An image that cannot be read is not valid.
    pub fn is_application_valid<H: S32KHal>(memory: &MemoryManager<H>) -> (valid: bool)
        ensures
            valid == (table_is_readable(memory) && image_is_runnable(
                memory.flash(),
                memory.application_region(),
            )),
    {
        Self::application_entry_point(memory).is_some()
    }

    /// Exclusive-or of the little-endian words in the `length` bytes from
    /// `address`, which must be whole words in one region.
    pub fn calculate_checksum<H: S32KHal>(
        memory: &MemoryManager<H>,
        address: u32,
        length: u32,
    ) -> (r: Result<u32, MemoryManagementError>)
        ensures
            match checksum_refusal(memory, address, length) {
                Some(e) => r == Err::<u32, MemoryManagementError>(e),
                None => {
                    &&& hands_on(memory.device().read_failure(address, length as usize), r)
                    &&& r matches Ok(checksum) ==> checksum == xor_checksum(
                        memory.flash().subrange(address as int, address + length),
                    )
                    &&& r matches Err(e) ==> e.reports_hardware()
                },
            },
    {
        if length % FLASH_WORD_SIZE != 0 {
            return Err(MemoryManagementError::RegionNotAligned);
        }
        if let Some(e) = memory.check_read(address, length as usize) {
            return Err(e);
        }
        let mut stored = zeroed(length as usize);
        match memory.read(address, stored.as_mut_slice()) {
            Err(e) => Err(e),
            Ok(()) => Ok(calculate_checksum(stored.as_slice())),
        }
    }
}

} // verus!
