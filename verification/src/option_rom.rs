//! The option ROM model: construction from a containing buffer, scanning,
//! and the byte-sum checksum engine.

use vstd::prelude::*;
use vstd::string::StringExecFns;
use crate::byte_ops::copy_range;

verus! {

/// Sum of all byte values of `s`, as an unbounded integer.
pub open spec fn byte_sum(s: Seq<u8>) -> int
    decreases s.len(),
{
    if s.len() == 0 {
        0
    } else {
        byte_sum(s.drop_last()) + s.last()
    }
}

/// The ROM checksum: the byte-sum modulo 256. A valid ROM has checksum 0.
pub open spec fn spec_checksum(s: Seq<u8>) -> int {
    byte_sum(s) % 256
}

/// The byte-sum of everything but the final byte, modulo 256.
pub open spec fn spec_checksum_remainder(s: Seq<u8>) -> int {
    byte_sum(s.drop_last()) % 256
}

/// The value the final byte must hold so that the whole image sums to 0
/// modulo 256: the additive inverse of the remainder within a byte.
pub open spec fn spec_required_final_byte(s: Seq<u8>) -> int {
    (256 - spec_checksum_remainder(s)) % 256
}

/// The image after checksum repair: unchanged when the checksum is already 0,
/// otherwise the final byte is overwritten with the required value.
pub open spec fn corrected_bytes(s: Seq<u8>) -> Seq<u8> {
    if spec_checksum(s) == 0 {
        s
    } else {
        s.update(s.len() - 1, spec_required_final_byte(s) as u8)
    }
}

/// The two signature bytes `0x55 0xAA` stand at offset `off`.
pub open spec fn header_at(b: Seq<u8>, off: int) -> bool {
    b[off] == 0x55u8 && b[off + 1] == 0xAAu8
}

/// The ROM length declared by the size byte at `off + 2`, in bytes.
pub open spec fn declared_rom_size(b: Seq<u8>, off: int) -> int {
    (b[off + 2] as int) * 512
}

/// Construction from `b` at `off` succeeds: the signature is present, the
/// size byte is readable and nonzero, and the declared size fits in `b`.
pub open spec fn construct_ok(b: Seq<u8>, off: int) -> bool {
    &&& off + 2 <= b.len()
    &&& header_at(b, off)
    &&& off + 3 <= b.len()
    &&& b[off + 2] != 0
    &&& off + declared_rom_size(b, off) <= b.len()
}

/// Construction fails on the signature: both signature bytes are readable
/// but do not match `0x55 0xAA`.
pub open spec fn construct_invalid_header(b: Seq<u8>, off: int) -> bool {
    off + 2 <= b.len() && !header_at(b, off)
}

/// Construction fails for want of bytes: the signature cannot even be read,
/// or it matches but the size byte is missing or zero, or the declared size
/// runs past the end of `b`.
pub open spec fn construct_too_small(b: Seq<u8>, off: int) -> bool {
    ||| off + 2 > b.len()
    ||| (header_at(b, off) && (off + 3 > b.len() || b[off + 2] == 0 || off + declared_rom_size(
        b,
        off,
    ) > b.len()))
}

/// Offset `i` looks like a ROM start to the scanner: the signature matches
/// and the declared size does not run past the end of `b`.
pub open spec fn scan_match_at(b: Seq<u8>, i: int) -> bool {
    header_at(b, i) && i + declared_rom_size(b, i) <= b.len()
}

#[derive(Debug, PartialEq)]
pub enum OptionRomError {
    InvalidOptionRomHeader,
    OptionRomTooSmall,
    OptionRomChecksumInvalid(OptionRom),
    NoOptionRomFoundInScan,
}

impl OptionRomError {
    /// The user-facing description of this error.
    pub open spec fn spec_message(self) -> Seq<char> {
        match self {
            OptionRomError::InvalidOptionRomHeader => "Invalid Option Rom Header. Must start 0x55AA"@,
            OptionRomError::OptionRomTooSmall => "The Option Rom is not big enough"@,
            OptionRomError::OptionRomChecksumInvalid(_) => "The Option Rom had an invalid checksum"@,
            OptionRomError::NoOptionRomFoundInScan => "No possibly valid Option Rom was found scanning in the source"@,
        }
    }

    /// The user-facing description of this error.
    pub fn message(&self) -> (r: String)
        ensures
            r@ == self.spec_message(),
    {
        match self {
            OptionRomError::InvalidOptionRomHeader => String::from_str(
                "Invalid Option Rom Header. Must start 0x55AA",
            ),
            OptionRomError::OptionRomTooSmall => String::from_str(
                "The Option Rom is not big enough",
            ),
            OptionRomError::OptionRomChecksumInvalid(_) => String::from_str(
                "The Option Rom had an invalid checksum",
            ),
            OptionRomError::NoOptionRomFoundInScan => String::from_str(
                "No possibly valid Option Rom was found scanning in the source",
            ),
        }
    }
}

#[derive(Debug, Clone, PartialEq)]
pub struct OptionRom {
    pub bytes: Vec<u8>,
    pub rom_size_in_bytes: usize,
}

impl OptionRom {
    /// The structural invariant of a live ROM image: signature at the start,
    /// and the length equals the declared size exactly.
    pub open spec fn wf(self) -> bool {
        &&& self.bytes@.len() >= 3
        &&& self.bytes@[0] == 0x55u8
        &&& self.bytes@[1] == 0xAAu8
        &&& self.bytes@.len() == declared_rom_size(self.bytes@, 0)
        &&& self.rom_size_in_bytes == self.bytes@.len()
    }

    /// Slices one ROM image out of `bytes`, starting at `start_offset`.
    ///
    /// Succeeds exactly when the signature stands at the offset, the size
    /// byte is readable and nonzero, and the declared size fits within
    /// `bytes`; the image then holds a copy of exactly the declared range.
    pub fn from(bytes: Vec<u8>, start_offset: usize) -> (r: Result<OptionRom, OptionRomError>)
        requires
            start_offset < bytes@.len(),
        ensures
            r is Ok <==> construct_ok(bytes@, start_offset as int),
            r == Err::<OptionRom, OptionRomError>(OptionRomError::InvalidOptionRomHeader)
                <==> construct_invalid_header(bytes@, start_offset as int),
            r == Err::<OptionRom, OptionRomError>(OptionRomError::OptionRomTooSmall)
                <==> construct_too_small(bytes@, start_offset as int),
            r matches Ok(rom) ==> {
                &&& rom.wf()
                &&& rom.rom_size_in_bytes == declared_rom_size(bytes@, start_offset as int)
                &&& rom.bytes@ == bytes@.subrange(
                    start_offset as int,
                    start_offset + declared_rom_size(bytes@, start_offset as int),
                )
            },
    {
        let n = bytes.len();
        if n - start_offset < 2 {
            return Err(OptionRomError::OptionRomTooSmall);
        }
        if !(bytes[start_offset] == 0x55 && bytes[start_offset + 1] == 0xAA) {
            return Err(OptionRomError::InvalidOptionRomHeader);
        }
        if n - start_offset < 3 {
            return Err(OptionRomError::OptionRomTooSmall);
        }
        let size_units = bytes[start_offset + 2];
        if size_units == 0 {
            return Err(OptionRomError::OptionRomTooSmall);
        }
        let rom_size_in_bytes: usize = (size_units as usize) * 512;
        if n - start_offset < rom_size_in_bytes {
            return Err(OptionRomError::OptionRomTooSmall);
        }
        let rom_end_in_bytes = start_offset + rom_size_in_bytes;
        let rom_bytes = copy_range(&bytes, start_offset, rom_end_in_bytes);
        let option_rom = OptionRom { bytes: rom_bytes, rom_size_in_bytes };
        Ok(option_rom)
    }

    /// Returns the first offset in `bytes` where a ROM image plausibly
    /// starts: the signature matches and the declared size stays inside the
    /// buffer. The checksum is not consulted.
    pub fn find_option_rom_start_in_bytes(bytes: &Vec<u8>) -> (r: Result<usize, OptionRomError>)
        ensures
            r matches Ok(i) ==> {
                &&& 0 <= i < bytes@.len() - 3
                &&& scan_match_at(bytes@, i as int)
                &&& forall|j: int| 0 <= j < i ==> !scan_match_at(bytes@, j)
            },
            r is Err ==> {
                &&& r == Err::<usize, OptionRomError>(OptionRomError::NoOptionRomFoundInScan)
                &&& forall|j: int| 0 <= j < bytes@.len() - 3 ==> !scan_match_at(bytes@, j)
            },
    {
        let n = bytes.len();
        if n < 3 {
            return Err(OptionRomError::NoOptionRomFoundInScan);
        }
        let mut i: usize = 0;
        while i < n - 3
            invariant
                n == bytes@.len(),
                3 <= n,
                i <= n - 3,
                forall|j: int| 0 <= j < i ==> !scan_match_at(bytes@, j),
            decreases n - 3 - i,
        {
            if bytes[i] == 0x55 && bytes[i + 1] == 0xAA {
                let suspected_rom_length: usize = 512 * (bytes[i + 2] as usize);
                if suspected_rom_length <= n - i {
                    return Ok(i);
                }
            }
            i = i + 1;
        }
        Err(OptionRomError::NoOptionRomFoundInScan)
    }

    /// Consumes the image; hands it back unchanged on a zero checksum, or
    /// inside the error when the checksum is nonzero, so that the caller can
    /// inspect or repair it without re-reading the source.
    pub fn validate_checksum(self) -> (r: Result<OptionRom, OptionRomError>)
        requires
            self.wf(),
        ensures
            spec_checksum(self.bytes@) == 0 ==> r == Ok::<OptionRom, OptionRomError>(self),
            spec_checksum(self.bytes@) != 0 ==> r == Err::<OptionRom, OptionRomError>(
                OptionRomError::OptionRomChecksumInvalid(self),
            ),
    {
        match self.calculate_checksum() {
            0 => Ok(self),
            _ => Err(OptionRomError::OptionRomChecksumInvalid(self)),
        }
    }

    /// The value the final byte would need so that the checksum comes to 0;
    /// 0 when the byte-sum of everything before it is already 0 modulo 256.
    pub fn required_checksum_byte(&self) -> (r: u8)
        requires
            self.wf(),
        ensures
            r as int == spec_required_final_byte(self.bytes@),
            spec_checksum_remainder(self.bytes@) == 0 ==> r == 0,
    {
        let remainder: u8 = self.calculate_checksum_remainder();
        match remainder {
            0 => 0,
            _ => 255 - (remainder - 1),
        }
    }

    /// Overwrites the final byte so that the checksum comes to 0; a no-op on
    /// an image whose checksum is already valid.
    pub fn correct_checksum_in_final_byte(&mut self)
        requires
            old(self).wf(),
        ensures
            final(self).bytes@ == corrected_bytes(old(self).bytes@),
            final(self).rom_size_in_bytes == old(self).rom_size_in_bytes,
            final(self).wf(),
            spec_checksum(final(self).bytes@) == 0,
    {
        proof {
            lemma_corrected_bytes_checksum_zero(self.bytes@);
        }
        if self.calculate_checksum() == 0 {
            return ;
        }
        let required_checksum = self.required_checksum_byte();
        let bytes_length = self.bytes.len();
        self.bytes.set(bytes_length - 1, required_checksum);
    }

    /// The byte-sum of everything but the final byte, modulo 256.
    fn calculate_checksum_remainder(&self) -> (r: u8)
        requires
            self.wf(),
        ensures
            r as int == spec_checksum_remainder(self.bytes@),
    {
        let end = self.bytes.len() - 1;
        let total = sum_range(&self.bytes, end);
        proof {
            assert(self.bytes@.take(end as int) =~= self.bytes@.drop_last());
        }
        (total % 0x100) as u8
    }

    /// The byte-sum of the whole image, modulo 256.
    fn calculate_checksum(&self) -> (r: u8)
        requires
            self.wf(),
        ensures
            r as int == spec_checksum(self.bytes@),
    {
        let total = sum_range(&self.bytes, self.bytes.len());
        proof {
            assert(self.bytes@.take(self.bytes@.len() as int) =~= self.bytes@);
        }
        (total % 0x100) as u8
    }
}

/// The sum of `bytes[0..end]`, which a well-formed image keeps far below
/// the accumulator's range: at most 255 units of 512 bytes each.
fn sum_range(bytes: &Vec<u8>, end: usize) -> (r: u32)
    requires
        end <= bytes@.len(),
        bytes@.len() <= 0x1FE00,
    ensures
        r as int == byte_sum(bytes@.take(end as int)),
{
    let mut total: u32 = 0;
    let mut i: usize = 0;
    while i < end
        invariant
            i <= end <= bytes@.len(),
            bytes@.len() <= 0x1FE00,
            total as int == byte_sum(bytes@.take(i as int)),
        decreases end - i,
    {
        proof {
            lemma_byte_sum_bound(bytes@.take(i as int));
            assert(bytes@.take(i + 1).drop_last() =~= bytes@.take(i as int));
            assert(bytes@.take(i + 1).last() == bytes@[i as int]);
        }
        total = total + (bytes[i] as u32);
        i = i + 1;
    }
    total
}

/// The byte-sum of `s` lies between 0 and 255 per byte.
pub proof fn lemma_byte_sum_bound(s: Seq<u8>)
    ensures
        0 <= byte_sum(s) <= 255 * s.len(),
    decreases s.len(),
{
    if s.len() > 0 {
        lemma_byte_sum_bound(s.drop_last());
    }
}

/// Repairing the final byte always leaves a zero checksum.
pub proof fn lemma_corrected_bytes_checksum_zero(s: Seq<u8>)
    requires
        s.len() >= 1,
    ensures
        spec_checksum(corrected_bytes(s)) == 0,
{
    if spec_checksum(s) != 0 {
        let d = byte_sum(s.drop_last());
        lemma_byte_sum_bound(s.drop_last());
        let r = d % 256;
        vstd::arithmetic::div_mod::lemma_mod_bound(d, 256);
        let v = spec_required_final_byte(s);
        if r != 0 {
            vstd::arithmetic::div_mod::lemma_small_mod((256 - r) as nat, 256 as nat);
        }
        let t = corrected_bytes(s);
        assert(t.drop_last() =~= s.drop_last());
        assert(t.last() == v as u8);
        assert(byte_sum(t) == d + v);
        vstd::arithmetic::div_mod::lemma_fundamental_div_mod(d, 256);
        if r == 0 {
            vstd::arithmetic::div_mod::lemma_mod_multiples_basic(d / 256, 256);
        } else {
            assert(byte_sum(t) == 256 * (d / 256 + 1));
            vstd::arithmetic::div_mod::lemma_mod_multiples_basic(d / 256 + 1, 256);
        }
    }
}

/// Repairing the checksum is idempotent: a second repair changes nothing,
/// and one repair already leaves a zero checksum.
pub proof fn lemma_correct_checksum_idempotent(s: Seq<u8>)
    requires
        s.len() >= 1,
    ensures
        spec_checksum(corrected_bytes(s)) == 0,
        corrected_bytes(corrected_bytes(s)) == corrected_bytes(s),
{
    lemma_corrected_bytes_checksum_zero(s);
}

/// A well-formed image reconstructs from its own bytes: construction at
/// offset 0 succeeds and yields exactly the same byte content.
pub proof fn lemma_rom_reconstructs_from_own_bytes(rom: OptionRom)
    requires
        rom.wf(),
    ensures
        construct_ok(rom.bytes@, 0),
        rom.bytes@.subrange(0, declared_rom_size(rom.bytes@, 0)) == rom.bytes@,
{
    assert(rom.bytes@.subrange(0, declared_rom_size(rom.bytes@, 0)) =~= rom.bytes@);
}

} // verus!
