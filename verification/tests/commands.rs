use option_rom::commands::validate::validate;
use option_rom::commands::write_rom::{write_rom, WriteRomArgs};
use option_rom::option_rom::OptionRom;

/// A valid 8192-byte ROM: the bytes sum to 85 + 170 + 16 + 241 = 512,
/// which is 0 modulo 256.
fn valid_option_rom() -> OptionRom {
    let mut bytes = vec![0u8; 8192];
    bytes[0] = 0x55;
    bytes[1] = 0xAA;
    bytes[2] = 0x10;
    bytes[0x1FFF] = 0xF1;
    OptionRom::from(bytes, 0).expect("the valid image should construct")
}

/// The same image without its checksum byte: the required final byte is 0xF1.
fn invalid_checksum_option_rom() -> OptionRom {
    let mut bytes = vec![0u8; 8192];
    bytes[0] = 0x55;
    bytes[1] = 0xAA;
    bytes[2] = 0x10;
    OptionRom::from(bytes, 0).expect("the checksum-invalid image should still construct")
}

fn write_rom_args(force: bool, update_checksum: bool, patch_rom: bool) -> WriteRomArgs {
    WriteRomArgs { force, rom_only: true, update_checksum, patch_rom }
}

#[test]
fn validate_with_valid_rom() -> Result<(), String> {
    let option_rom = valid_option_rom();

    match validate(option_rom) {
        Ok(_) => Ok(()),
        Err(e) => Err(format!("Expected Ok but got error {}", e)),
    }
}

#[test]
fn validate_with_bad_checksum() -> Result<(), String> {
    let option_rom = invalid_checksum_option_rom();

    match validate(option_rom) {
        Ok(_) => Err("Expected an error validating checksum on pc.boot.invalid but got Ok".into()),
        Err(message) => {
            assert_eq!(message, "Option Rom Checksum Invalid. Requires checksum byte F1");
            Ok(())
        },
    }
}

#[test]
fn write_rom_refuses_existing_output_without_force() {
    let option_rom = valid_option_rom();

    match write_rom(option_rom, &write_rom_args(false, false, false), true) {
        Err(message) => assert_eq!(
            message,
            "The output file exists and the force option was not specified"
        ),
        Ok(_) => panic!("Expected a refusal when the output file exists without force"),
    }
}

#[test]
fn write_rom_overwrites_existing_output_with_force() {
    let option_rom = valid_option_rom();
    let expected = option_rom.clone();

    match write_rom(option_rom, &write_rom_args(true, false, false), true) {
        Ok(written) => assert_eq!(written, expected),
        Err(e) => panic!("Expected Ok but got error {}", e),
    }
}

#[test]
fn write_rom_refuses_bad_checksum_without_update() {
    let option_rom = invalid_checksum_option_rom();

    match write_rom(option_rom, &write_rom_args(false, false, false), false) {
        Err(message) => assert_eq!(
            message,
            "Option Rom Checksum Invalid and update_checksum was not specified. Requires checksum byte F1"
        ),
        Ok(_) => panic!("Expected a refusal on a checksum-invalid image without update_checksum"),
    }
}

#[test]
fn write_rom_repairs_bad_checksum_with_update() {
    let option_rom = invalid_checksum_option_rom();

    match write_rom(option_rom, &write_rom_args(false, true, false), false) {
        Ok(written) => {
            assert_eq!(written.bytes[0x1FFF], 0xF1);
            let sum: u32 = written.bytes.iter().map(|b| *b as u32).sum();
            assert_eq!(sum % 256, 0);
        },
        Err(e) => panic!("Expected Ok but got error {}", e),
    }
}

#[test]
fn write_rom_round_trips_through_its_own_bytes() {
    let option_rom = valid_option_rom();
    let expected = option_rom.clone();

    // What write-rom would put on disk with rom_only set, read back in and
    // constructed again, reproduces the identical image.
    let written = match write_rom(option_rom, &write_rom_args(false, false, false), false) {
        Ok(written) => written,
        Err(e) => panic!("Expected Ok but got error {}", e),
    };
    let reread = written.bytes.clone();
    match OptionRom::from(reread, 0) {
        Ok(reconstructed) => assert_eq!(reconstructed, expected),
        Err(e) => panic!("Expected the written ROM to reconstruct but got {}", e.message()),
    }
}

#[test]
fn write_rom_reports_patch_failure() {
    // A valid image whose body holds neither anchor sequence.
    let option_rom = valid_option_rom();

    match write_rom(option_rom, &write_rom_args(false, false, true), false) {
        Err(message) => assert_eq!(
            message,
            "Failed patching ROM with error: Couldn't find the HDD ready check."
        ),
        Ok(_) => panic!("Expected patching to fail on an image without the anchor sequences"),
    }
}
