use option_rom::option_rom::OptionRom;
use option_rom::option_rom_patcher::{patch_rom, OptionRomPatcherError};

const HDD_READY_CHECK: [u8; 9] = [0xb4, 0x10, 0xb2, 0x80, 0xcd, 0x13, 0x5a, 0x58, 0x72];
const INT_13_SET_FINISHED: [u8; 9] = [0x8c, 0x06, 0x1e, 0x20, 0x89, 0x3e, 0x1c, 0x20, 0x07];

/// A 1024-byte ROM with the given anchor sequences planted at the given
/// offsets; everything else is zero except the header.
fn rom_with_anchors(hdd_at: Option<usize>, int13_at: Option<usize>) -> OptionRom {
    let mut bytes = vec![0u8; 1024];
    bytes[0] = 0x55;
    bytes[1] = 0xAA;
    bytes[2] = 0x02;
    if let Some(at) = hdd_at {
        bytes[at..at + 9].copy_from_slice(&HDD_READY_CHECK);
    }
    if let Some(at) = int13_at {
        bytes[at..at + 9].copy_from_slice(&INT_13_SET_FINISHED);
    }
    OptionRom::from(bytes, 0).expect("the synthesized image should construct")
}

fn checksum(bytes: &[u8]) -> u32 {
    let sum: u32 = bytes.iter().map(|b| *b as u32).sum();
    sum % 256
}

#[test]
fn patch_rom_splices_jump_and_regenerates_checksum() {
    // The ready check starts at 16, so its conditional jump sits at 24; the
    // INT 13h installation ends at 64 + 9 = 73, so the spliced jump must
    // cover 73 - (24 + 2) = 47 bytes.
    let original = rom_with_anchors(Some(16), Some(64));

    let patched = match patch_rom(&original) {
        Ok(patched) => patched,
        Err(e) => panic!("Expected patching to succeed but got {}", e.message()),
    };

    assert_eq!(patched.bytes.len(), original.bytes.len());
    assert_eq!(patched.bytes[24], 0xEB);
    assert_eq!(patched.bytes[25], 47);
    assert_eq!(patched.bytes[..24], original.bytes[..24]);
    assert_eq!(patched.bytes[26..1023], original.bytes[26..1023]);
    assert_eq!(checksum(&patched.bytes), 0);
    // The input image is left unmodified.
    assert_eq!(original.bytes[24], 0x72);
}

#[test]
fn patch_rom_is_deterministic() {
    let original = rom_with_anchors(Some(16), Some(64));

    let first = patch_rom(&original).expect("patching should succeed");
    let second = patch_rom(&original).expect("patching should succeed");

    assert_eq!(first, second);
}

#[test]
fn patch_rom_output_validates_without_repair() {
    let original = rom_with_anchors(Some(16), Some(64));
    let patched = patch_rom(&original).expect("patching should succeed");
    assert_eq!(checksum(&patched.bytes), 0);
    assert!(patched.validate_checksum().is_ok());
}

#[test]
fn patch_rom_fails_without_ready_check_anchor() {
    let original = rom_with_anchors(None, Some(64));

    match patch_rom(&original) {
        Err(e) => {
            assert!(matches!(e, OptionRomPatcherError::CouldntLocateHddReadyCheck));
            assert_eq!(e.message(), "Couldn't find the HDD ready check.");
        },
        Ok(_) => panic!("Expected patching to fail without the ready-check anchor"),
    }
}

#[test]
fn patch_rom_fails_without_int_13_anchor() {
    let original = rom_with_anchors(Some(16), None);

    match patch_rom(&original) {
        Err(e) => {
            assert!(matches!(e, OptionRomPatcherError::CouldntLocateAfterInt13Set));
            assert_eq!(
                e.message(),
                "Couldn't find the end of the code which sets the INT13 handler."
            );
        },
        Ok(_) => panic!("Expected patching to fail without the INT 13h anchor"),
    }
}

#[test]
fn patch_rom_fails_when_jump_does_not_fit_a_byte() {
    // 400 + 9 - (16 + 8 + 2) = 383, which does not fit an unsigned byte.
    let original = rom_with_anchors(Some(16), Some(400));

    match patch_rom(&original) {
        Err(e) => {
            assert!(matches!(e, OptionRomPatcherError::JumpLengthTooBig));
            assert_eq!(e.message(), "The distance to JMP to avoid setting INT13 is too big.");
        },
        Ok(_) => panic!("Expected patching to fail on an over-long jump"),
    }
}

#[test]
fn patch_rom_fails_when_jump_would_go_backwards() {
    let original = rom_with_anchors(Some(400), Some(16));

    match patch_rom(&original) {
        Err(e) => assert!(matches!(e, OptionRomPatcherError::JumpLengthTooBig)),
        Ok(_) => panic!("Expected patching to fail on a backwards jump"),
    }
}
