//! The validate operation: report whether an image's checksum holds, and if
//! not, which final byte it would need.

use vstd::prelude::*;
use vstd::string::StringExecFns;
use crate::hex::{byte_to_hex_upper, hex_byte_chars};
use crate::option_rom::{spec_checksum, spec_required_final_byte, OptionRom, OptionRomError};

verus! {

/// The failure message for a checksum-invalid image, naming the value its
/// final byte would need, in two uppercase hexadecimal digits.
pub open spec fn checksum_invalid_message(required: int) -> Seq<char> {
    "Option Rom Checksum Invalid. Requires checksum byte "@ + hex_byte_chars(required)
}

/// Checks the image's checksum and renders the outcome for the user: a
/// success message exactly when the checksum is 0, otherwise a failure
/// message naming the required final byte.
pub fn validate(option_rom: OptionRom) -> (r: Result<String, String>)
    requires
        option_rom.wf(),
    ensures
        r is Ok <==> spec_checksum(option_rom.bytes@) == 0,
        r matches Ok(m) ==> m@ == "Option Rom read and validated"@,
        r matches Err(m) ==> m@ == checksum_invalid_message(
            spec_required_final_byte(option_rom.bytes@),
        ),
{
    match option_rom.validate_checksum() {
        Ok(_) => Ok(String::from_str("Option Rom read and validated")),
        Err(OptionRomError::OptionRomChecksumInvalid(bad_option_rom)) => {
            let required_checksum_byte = bad_option_rom.required_checksum_byte();
            let hex = byte_to_hex_upper(required_checksum_byte);
            let message = String::from_str(
                "Option Rom Checksum Invalid. Requires checksum byte ",
            ).concat(hex.as_str());
            Err(message)
        },
        Err(e) => Err(e.message()),
    }
}

} // verus!
