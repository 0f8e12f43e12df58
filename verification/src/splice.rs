//! Splicing a ROM image into a larger container file at a byte offset.

use vstd::prelude::*;
use crate::byte_ops::append_range;
use crate::option_rom::OptionRom;

verus! {

/// `n` zero bytes.
pub open spec fn zero_bytes(n: int) -> Seq<u8> {
    Seq::new(n as nat, |i: int| 0u8)
}

/// The container image with `rom` standing at offset `k`: the source up to
/// `k` (zero-filled where the source ends before `k`), then the ROM, then
/// whatever of the source lies past the ROM's end.
pub open spec fn spliced_bytes(src: Seq<u8>, rom: Seq<u8>, k: int) -> Seq<u8> {
    let head = if k <= src.len() {
        src.subrange(0, k)
    } else {
        src + zero_bytes(k - src.len())
    };
    let tail = if k + rom.len() < src.len() {
        src.subrange(k + rom.len(), src.len() as int)
    } else {
        Seq::<u8>::empty()
    };
    head + rom + tail
}

/// The spliced image leaves every byte outside `[k, k + rom.len())`
/// unchanged from the source, holds exactly `rom` inside that range,
/// zero-fills any gap between the source's end and `k`, and is exactly as
/// long as the larger of the source and the ROM's end.
pub proof fn lemma_splice_correct(src: Seq<u8>, rom: Seq<u8>, k: int)
    requires
        0 <= k,
    ensures
        ({
            let out = spliced_bytes(src, rom, k);
            &&& out.len() == if k + rom.len() > src.len() {
                k + rom.len()
            } else {
                src.len() as int
            }
            &&& forall|i: int| 0 <= i < k && i < src.len() ==> out[i] == src[i]
            &&& forall|i: int| src.len() <= i < k ==> out[i] == 0u8
            &&& forall|i: int| k <= i < k + rom.len() ==> out[i] == rom[i - k]
            &&& forall|i: int| k + rom.len() <= i < src.len() ==> out[i] == src[i]
        }),
{
}

/// Builds the output image for a whole-file write: the source bytes with the
/// ROM spliced in at `rom_start_byte`.
pub fn splice_rom_into_file(
    source_bytes: &Vec<u8>,
    option_rom: &OptionRom,
    rom_start_byte: usize,
) -> (r: Vec<u8>)
    requires
        rom_start_byte + option_rom.bytes@.len() <= usize::MAX,
    ensures
        r@ == spliced_bytes(source_bytes@, option_rom.bytes@, rom_start_byte as int),
{
    let source_len = source_bytes.len();
    let rom_end_location: usize = rom_start_byte + option_rom.bytes.len();
    let mut output: Vec<u8> = Vec::new();

    if rom_start_byte <= source_len {
        append_range(&mut output, source_bytes, 0, rom_start_byte);
    } else {
        append_range(&mut output, source_bytes, 0, source_len);
        let mut gap: usize = source_len;
        while gap < rom_start_byte
            invariant
                source_len <= gap <= rom_start_byte,
                output@ == source_bytes@ + zero_bytes(gap - source_len),
            decreases rom_start_byte - gap,
        {
            output.push(0u8);
            proof {
                assert(source_bytes@ + zero_bytes(gap + 1 - source_len) =~= (source_bytes@
                    + zero_bytes(gap - source_len)).push(0u8));
            }
            gap = gap + 1;
        }
    }
    append_range(&mut output, &option_rom.bytes, 0, option_rom.bytes.len());
    if rom_end_location < source_len {
        append_range(&mut output, source_bytes, rom_end_location, source_len);
    }
    proof {
        assert(option_rom.bytes@.subrange(0, option_rom.bytes@.len() as int) =~= option_rom.bytes@);
        assert(output@ =~= spliced_bytes(
            source_bytes@,
            option_rom.bytes@,
            rom_start_byte as int,
        ));
    }
    output
}

} // verus!
