use openblt::flash::{Flash, FLASH_SIZE};
use openblt::hal::FlashError;

#[test]
fn new_flash_is_erased() {
    let flash = Flash::new();
    assert_eq!(flash.read(0, 8), Ok(vec![0xFF; 8]));
    assert_eq!(flash.read(FLASH_SIZE - 4, 4), Ok(vec![0xFF; 4]));
}

#[test]
fn flash_write_then_read() {
    let mut flash = Flash::new();
    assert_eq!(flash.write(0x1000, &[1, 2, 3, 4, 5, 6, 7, 8]), Ok(()));
    assert_eq!(flash.read(0x1000, 8), Ok(vec![1, 2, 3, 4, 5, 6, 7, 8]));
    assert_eq!(flash.read(0x0FFC, 8), Ok(vec![0xFF, 0xFF, 0xFF, 0xFF, 1, 2, 3, 4]));
    assert_eq!(flash.read(0x1004, 8), Ok(vec![5, 6, 7, 8, 0xFF, 0xFF, 0xFF, 0xFF]));
}

#[test]
fn flash_programming_only_clears_bits() {
    let mut flash = Flash::new();
    assert_eq!(flash.write(0x2000, &[0xF0, 0x0F, 0xAA, 0xFF]), Ok(()));
    assert_eq!(flash.write(0x2000, &[0x3C, 0xFF, 0x55, 0x00]), Ok(()));
    assert_eq!(flash.read(0x2000, 4), Ok(vec![0x30, 0x0F, 0x00, 0x00]));
}

#[test]
fn flash_programming_same_bytes_again_changes_nothing() {
    let mut flash = Flash::new();
    assert_eq!(flash.write(0x2000, &[0x12, 0x34, 0x56, 0x78]), Ok(()));
    assert_eq!(flash.write(0x2000, &[0x12, 0x34, 0x56, 0x78]), Ok(()));
    assert_eq!(flash.read(0x2000, 4), Ok(vec![0x12, 0x34, 0x56, 0x78]));
}

#[test]
fn flash_erase_restores_pages() {
    let mut flash = Flash::new();
    assert_eq!(flash.write(0x3000, &[0, 0, 0, 0]), Ok(()));
    assert_eq!(flash.write(0x4000, &[1, 1, 1, 1]), Ok(()));
    assert_eq!(flash.erase(0x3000, 4096), Ok(()));
    assert_eq!(flash.read(0x3000, 4), Ok(vec![0xFF; 4]));
    assert_eq!(flash.read(0x4000, 4), Ok(vec![1, 1, 1, 1]));
}

#[test]
fn flash_erase_beyond_what_was_programmed() {
    let mut flash = Flash::new();
    assert_eq!(flash.write(0x1000, &[0, 0, 0, 0]), Ok(()));
    assert_eq!(flash.erase(0x1000, 0x10000), Ok(()));
    assert_eq!(flash.erase(0x0080_0000, 4096), Ok(()));
    assert_eq!(flash.read(0x1000, 4), Ok(vec![0xFF; 4]));
}

#[test]
fn flash_erase_refuses_bad_ranges() {
    let mut flash = Flash::new();
    assert_eq!(flash.erase(0x1004, 4096), Err(FlashError::InvalidAddress));
    assert_eq!(flash.erase(0x1000, 100), Err(FlashError::InvalidLength));
    assert_eq!(flash.erase(FLASH_SIZE, 4096), Err(FlashError::InvalidAddress));
    assert_eq!(flash.erase(FLASH_SIZE - 4096, 8192), Err(FlashError::InvalidAddress));
    assert_eq!(flash.erase(FLASH_SIZE - 4096, 4096), Ok(()));
    assert_eq!(flash.erase(0xFFFF_F000, 0xFFFF_F000), Err(FlashError::InvalidAddress));
}

#[test]
fn flash_write_refuses_bad_ranges() {
    let mut flash = Flash::new();
    assert_eq!(flash.write(0x1002, &[0; 4]), Err(FlashError::InvalidAddress));
    assert_eq!(flash.write(0x1000, &[0; 3]), Err(FlashError::InvalidLength));
    assert_eq!(flash.write(FLASH_SIZE, &[0; 4]), Err(FlashError::InvalidAddress));
    assert_eq!(flash.write(FLASH_SIZE - 4, &[0; 8]), Err(FlashError::InvalidAddress));
    assert_eq!(flash.read(0x1000, 4), Ok(vec![0xFF; 4]));
}

#[test]
fn flash_read_refuses_ranges_outside_the_device() {
    let flash = Flash::new();
    assert_eq!(flash.read(FLASH_SIZE, 1), Err(FlashError::InvalidAddress));
    assert_eq!(flash.read(FLASH_SIZE - 1, 2), Err(FlashError::InvalidAddress));
    assert_eq!(flash.read(FLASH_SIZE, 0), Ok(vec![]));
    assert_eq!(flash.read(0xFFFF_FFFF, 0xFFFF_FFFF), Err(FlashError::InvalidAddress));
}

#[test]
fn flash_checksum_is_xor_of_words() {
    let mut flash = Flash::new();
    assert_eq!(flash.write(0x1000, &[0x78, 0x56, 0x34, 0x12, 0x01, 0x00, 0x00, 0x80]), Ok(()));
    assert_eq!(flash.calculate_checksum(0x1000, 8), Ok(0x1234_5678 ^ 0x8000_0001));
    assert_eq!(flash.calculate_checksum(0x1000, 4), Ok(0x1234_5678));
    assert_eq!(flash.calculate_checksum(0x1000, 12), Ok(0x1234_5678 ^ 0x8000_0001 ^ 0xFFFF_FFFF));
    assert_eq!(flash.calculate_checksum(0x1000, 0), Ok(0));
}

#[test]
fn flash_checksum_repeats_and_follows_contents() {
    let mut flash = Flash::new();
    assert_eq!(flash.write(0x1000, &[0x11, 0x22, 0x33, 0x44]), Ok(()));
    let first = flash.calculate_checksum(0x1000, 4096);
    assert_eq!(flash.calculate_checksum(0x1000, 4096), first);
    assert_eq!(flash.write(0x1100, &[0xFE, 0xFF, 0xFF, 0xFF]), Ok(()));
    assert_ne!(flash.calculate_checksum(0x1000, 4096), first);
}

#[test]
fn flash_checksum_refuses_bad_ranges() {
    let flash = Flash::new();
    assert_eq!(flash.calculate_checksum(0x1000, 6), Err(FlashError::InvalidLength));
    assert_eq!(flash.calculate_checksum(FLASH_SIZE, 4), Err(FlashError::InvalidAddress));
}

#[test]
fn flash_clone_keeps_contents() {
    let mut flash = Flash::new();
    assert_eq!(flash.write(0x1000, &[9, 8, 7, 6]), Ok(()));
    let copy = flash.clone();
    assert_eq!(flash.erase(0x1000, 4096), Ok(()));
    assert_eq!(copy.read(0x1000, 4), Ok(vec![9, 8, 7, 6]));
    assert_eq!(flash.read(0x1000, 4), Ok(vec![0xFF; 4]));
}

#[test]
fn flash_error_messages() {
    assert_eq!(FlashError::InvalidAddress.message(), "Invalid flash address");
    assert_eq!(FlashError::InvalidLength.message(), "Invalid flash length");
    assert_eq!(FlashError::WriteError.message(), "Flash write error");
    assert_eq!(FlashError::EraseError.message(), "Flash erase error");
    assert_eq!(FlashError::ReadError.message(), "Flash read error");
    assert_eq!(FlashError::Busy.message(), "Flash controller busy");
    assert_eq!(FlashError::Timeout.message(), "Flash operation timeout");
}

#[test]
fn flash_with_geometry_covers_only_its_range() {
    let mut flash = Flash::with_geometry(0x8000, 0x4000);
    assert_eq!(flash.read(0x8000, 4), Ok(vec![0xFF; 4]));
    assert_eq!(flash.read(0x7FFC, 4), Err(FlashError::InvalidAddress));
    assert_eq!(flash.read(0xBFFC, 8), Err(FlashError::InvalidAddress));
    assert_eq!(flash.write(0xBFFC, &[1, 2, 3, 4]), Ok(()));
    assert_eq!(flash.read(0xBFFC, 4), Ok(vec![1, 2, 3, 4]));
    assert_eq!(flash.erase(0xB000, 0x1000), Ok(()));
    assert_eq!(flash.erase(0xC000, 0x1000), Err(FlashError::InvalidAddress));
    assert!(flash.contains(0x8000, 0x4000));
    assert!(!flash.contains(0x8000, 0x4001));
    assert!(!flash.contains(0x7FFF, 1));
    let top = Flash::with_geometry(0xFFFF_F000, 0x1000);
    assert!(top.contains(0xFFFF_FFFF, 1));
    assert!(!top.contains(0xFFFF_FFFF, 2));
}
