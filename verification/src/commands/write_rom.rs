//! The write-rom operation: decide whether the image may be written and in
//! what form — refreshed checksum, patched body — leaving the file writing
//! itself to the caller.

use vstd::prelude::*;
use vstd::string::StringExecFns;
use crate::hex::{byte_to_hex_upper, hex_byte_chars};
use crate::option_rom::{
    corrected_bytes, spec_checksum, spec_required_final_byte, OptionRom, OptionRomError,
};
use crate::option_rom_patcher::{patch_error_message, patch_ok, patch_rom, patched_bytes};

verus! {

/// The options of the write-rom operation, as they arrive from the command
/// line.
pub struct WriteRomArgs {
    /// Force overwrite an existing output file.
    pub force: bool,
    /// Only write the discovered ROM and not the whole file.
    pub rom_only: bool,
    /// Fix the checksum by altering the final byte of the rom.
    pub update_checksum: bool,
    /// Patch the ROM to skip the INT 13h handler installation.
    pub patch_rom: bool,
}

/// The refusal when the output file already exists and overwriting was not
/// forced.
pub open spec fn output_exists_message() -> Seq<char> {
    "The output file exists and the force option was not specified"@
}

/// The refusal when the image's checksum is invalid and repairing it was not
/// requested, naming the value the final byte would need.
pub open spec fn checksum_not_updated_message(required: int) -> Seq<char> {
    "Option Rom Checksum Invalid and update_checksum was not specified. Requires checksum byte "@
        + hex_byte_chars(required)
}

/// The refusal when the patcher fails, carrying the patcher's own message.
pub open spec fn patch_failed_message(b: Seq<u8>) -> Seq<char> {
    "Failed patching ROM with error: "@ + patch_error_message(b)
}

/// Decides the image that the write-rom operation will put on disk, or the
/// message with which it refuses.
///
/// Refuses an existing output without `force`; refuses a checksum-invalid
/// image without `update_checksum`, and repairs the final byte with it;
/// patches the body when `patch_rom` asks for it. On success the returned
/// image always carries a valid checksum.
pub fn write_rom(option_rom: OptionRom, write_rom_args: &WriteRomArgs, output_exists: bool) -> (r:
    Result<OptionRom, String>)
    requires
        option_rom.wf(),
    ensures
        output_exists && !write_rom_args.force ==> (r matches Err(m) && m@
            == output_exists_message()),
        ({
            let refused = output_exists && !write_rom_args.force;
            let repaired = corrected_bytes(option_rom.bytes@);
            &&& !refused && spec_checksum(option_rom.bytes@) != 0 && !write_rom_args.update_checksum
                ==> (r matches Err(m) && m@ == checksum_not_updated_message(
                spec_required_final_byte(option_rom.bytes@),
            ))
            &&& !refused && (spec_checksum(option_rom.bytes@) == 0
                || write_rom_args.update_checksum) ==> {
                &&& !write_rom_args.patch_rom ==> (r matches Ok(rom) && rom.wf() && rom.bytes@
                    == repaired)
                &&& write_rom_args.patch_rom && patch_ok(repaired) ==> (r matches Ok(rom)
                    && rom.wf() && rom.bytes@ == corrected_bytes(patched_bytes(repaired)))
                &&& write_rom_args.patch_rom && !patch_ok(repaired) ==> (r matches Err(m) && m@
                    == patch_failed_message(repaired))
            }
        }),
        r matches Ok(rom) ==> rom.wf() && spec_checksum(rom.bytes@) == 0,
{
    if output_exists && !write_rom_args.force {
        return Err(String::from_str("The output file exists and the force option was not specified"));
    }

    let mut option_rom = match option_rom.validate_checksum() {
        Ok(option_rom) => option_rom,
        Err(OptionRomError::OptionRomChecksumInvalid(mut bad_option_rom)) => {
            if !write_rom_args.update_checksum {
                let required_checksum_byte = bad_option_rom.required_checksum_byte();
                let hex = byte_to_hex_upper(required_checksum_byte);
                let message = String::from_str(
                    "Option Rom Checksum Invalid and update_checksum was not specified. Requires checksum byte ",
                ).concat(hex.as_str());
                return Err(message);
            }
            bad_option_rom.correct_checksum_in_final_byte();
            bad_option_rom
        },
        Err(e) => {
            let msg = e.message();
            return Err(String::from_str("Unrecoverable option rom error: ").concat(msg.as_str()));
        },
    };

    if write_rom_args.patch_rom {
        option_rom = match patch_rom(&option_rom) {
            Ok(patched_option_rom) => patched_option_rom,
            Err(e) => {
                let msg = e.message();
                return Err(
                    String::from_str("Failed patching ROM with error: ").concat(msg.as_str()),
                );
            },
        };
    }

    Ok(option_rom)
}

} // verus!
