//! The instruction-pattern patcher: locates two fixed x86 byte sequences in
//! a ROM body and splices in a short jump that skips the INT 13h handler
//! installation, regenerating the checksum afterwards.

use vstd::prelude::*;
use crate::byte_ops::{append_range, copy_range};
use crate::option_rom::{
    corrected_bytes, spec_checksum, OptionRom, OptionRomError,
};

verus! {

const X86_INT: u8 = 0xCD;
const X86_MOV_INTO_AH: u8 = 0xb4;
const X86_MOV_INTO_DL: u8 = 0xb2;
const X86_POP_AX: u8 = 0x58;
const X86_POP_DX: u8 = 0x5a;
const X86_POP_ES: u8 = 0x07;
const X86_JC: u8 = 0x72;
const X86_JMP: u8 = 0xeb;

const X86_MOV_SEGMENT_REGISTER_TO_MEMORY_ADDRESS: u8 = 0x8c;
const X86_MOV_GENERAL_REGISTER_TO_MEMORY_ADDRESS: u8 = 0x89;
const X86_ES_SEGMENT_REGISTER: u8 = 0x06;
const X86_DI_GENERAL_REGISTER: u8 = 0x3e;

/// The code that probes whether the HDD is ready, up to and including the
/// conditional-jump opcode taken when it is not.
pub open spec fn hdd_ready_check_seq() -> Seq<u8> {
    seq![0xb4u8, 0x10u8, 0xb2u8, 0x80u8, 0xcdu8, 0x13u8, 0x5au8, 0x58u8, 0x72u8]
}

/// The tail of the code that installs the INT 13h handler.
pub open spec fn int_13_set_finished_seq() -> Seq<u8> {
    seq![0x8cu8, 0x06u8, 0x1eu8, 0x20u8, 0x89u8, 0x3eu8, 0x1cu8, 0x20u8, 0x07u8]
}

/// The whole of `pat` stands in `b` starting at offset `i`.
pub open spec fn bytes_match_at(b: Seq<u8>, pat: Seq<u8>, i: int) -> bool {
    forall|k: int| 0 <= k < pat.len() ==> b[i + k] == pat[k]
}

/// The first offset at or after `i`, within the scanned window
/// `[0, b.len() - 10)`, where `pat` stands in `b`; -1 when there is none.
pub open spec fn first_match_from(b: Seq<u8>, pat: Seq<u8>, i: int) -> int
    decreases b.len() - i,
{
    if i < 0 || i >= b.len() - 10 {
        -1
    } else if bytes_match_at(b, pat, i) {
        i
    } else {
        first_match_from(b, pat, i + 1)
    }
}

/// `first_match_from` returns the least matching offset in the window at or
/// after `i`, and -1 exactly when the window holds no match there.
pub proof fn lemma_first_match_from(b: Seq<u8>, pat: Seq<u8>, i: int)
    requires
        i >= 0,
    ensures
        ({
            let m = first_match_from(b, pat, i);
            &&& m >= 0 ==> {
                &&& i <= m < b.len() - 10
                &&& bytes_match_at(b, pat, m)
                &&& forall|j: int| i <= j < m ==> !bytes_match_at(b, pat, j)
            }
            &&& m < 0 ==> forall|j: int| i <= j < b.len() - 10 ==> !bytes_match_at(b, pat, j)
        }),
    decreases b.len() - i,
{
    if i < b.len() - 10 && !bytes_match_at(b, pat, i) {
        lemma_first_match_from(b, pat, i + 1);
    }
}

/// The offset of the first scanned occurrence of `hdd_ready_check_seq`.
pub open spec fn first_hdd_ready_check(b: Seq<u8>) -> int {
    first_match_from(b, hdd_ready_check_seq(), 0)
}

/// The offset of the first scanned occurrence of `int_13_set_finished_seq`.
pub open spec fn first_int_13_set_finished(b: Seq<u8>) -> int {
    first_match_from(b, int_13_set_finished_seq(), 0)
}

/// The offset of the conditional jump taken when the HDD is not ready: the
/// final byte of the located ready-check sequence.
pub open spec fn hdd_not_ready_jump_location(b: Seq<u8>) -> int {
    first_hdd_ready_check(b) + 8
}

/// The offset just past the located INT 13h installation sequence.
pub open spec fn after_int_13_set_location(b: Seq<u8>) -> int {
    first_int_13_set_finished(b) + 9
}

/// The displacement of the spliced-in short jump, measured from the byte
/// after the two-byte jump instruction.
pub open spec fn patch_jump_length(b: Seq<u8>) -> int {
    after_int_13_set_location(b) - (hdd_not_ready_jump_location(b) + 2)
}

/// Patching succeeds: both anchors are present and the jump displacement
/// fits an unsigned byte.
pub open spec fn patch_ok(b: Seq<u8>) -> bool {
    &&& first_hdd_ready_check(b) >= 0
    &&& first_int_13_set_finished(b) >= 0
    &&& 0 <= patch_jump_length(b) <= 255
}

/// The patched image: unchanged up to the not-ready jump, then a short jump
/// over the INT 13h installation, then the rest of the original body.
pub open spec fn patched_bytes(b: Seq<u8>) -> Seq<u8> {
    let loc = hdd_not_ready_jump_location(b);
    b.subrange(0, loc) + seq![0xebu8, patch_jump_length(b) as u8] + b.subrange(
        loc + 2,
        b.len() as int,
    )
}

/// The description of the error that patching `b` reports when
/// `patch_ok(b)` does not hold.
pub open spec fn patch_error_message(b: Seq<u8>) -> Seq<char> {
    if first_hdd_ready_check(b) < 0 {
        OptionRomPatcherError::CouldntLocateHddReadyCheck.spec_message()
    } else if first_int_13_set_finished(b) < 0 {
        OptionRomPatcherError::CouldntLocateAfterInt13Set.spec_message()
    } else {
        OptionRomPatcherError::JumpLengthTooBig.spec_message()
    }
}

#[derive(Debug)]
pub enum OptionRomPatcherError {
    OptionRomGenerationError(OptionRomError),
    CouldntLocateHddReadyCheck,
    CouldntLocateAfterInt13Set,
    JumpLengthTooBig,
}

impl OptionRomPatcherError {
    /// The user-facing description of this error.
    pub open spec fn spec_message(self) -> Seq<char> {
        match self {
            OptionRomPatcherError::CouldntLocateHddReadyCheck => "Couldn't find the HDD ready check."@,
            OptionRomPatcherError::CouldntLocateAfterInt13Set => "Couldn't find the end of the code which sets the INT13 handler."@,
            OptionRomPatcherError::JumpLengthTooBig => "The distance to JMP to avoid setting INT13 is too big."@,
            OptionRomPatcherError::OptionRomGenerationError(e) => e.spec_message(),
        }
    }

    /// The user-facing description of this error.
    pub fn message(&self) -> (r: String)
        ensures
            r@ == self.spec_message(),
    {
        match self {
            OptionRomPatcherError::CouldntLocateHddReadyCheck => String::from_str(
                "Couldn't find the HDD ready check.",
            ),
            OptionRomPatcherError::CouldntLocateAfterInt13Set => String::from_str(
                "Couldn't find the end of the code which sets the INT13 handler.",
            ),
            OptionRomPatcherError::JumpLengthTooBig => String::from_str(
                "The distance to JMP to avoid setting INT13 is too big.",
            ),
            OptionRomPatcherError::OptionRomGenerationError(e) => e.message(),
        }
    }
}

/// Whether `pattern` stands in `bytes` starting at offset `i`.
fn pattern_matches_at(bytes: &Vec<u8>, pattern: &Vec<u8>, i: usize) -> (r: bool)
    requires
        i + pattern@.len() <= bytes@.len() <= usize::MAX,
    ensures
        r == bytes_match_at(bytes@, pattern@, i as int),
{
    let mut k: usize = 0;
    while k < pattern.len()
        invariant
            i + pattern@.len() <= bytes@.len() <= usize::MAX,
            k <= pattern@.len(),
            forall|kk: int| 0 <= kk < k ==> bytes@[i + kk] == pattern@[kk],
        decreases pattern@.len() - k,
    {
        if bytes[i + k] != pattern[k] {
            proof {
                assert(bytes@[i as int + k as int] != pattern@[k as int]);
            }
            return false;
        }
        k = k + 1;
    }
    true
}

/// The first offset in the scanned window where `pattern` stands in `bytes`.
fn find_pattern_start(bytes: &Vec<u8>, pattern: &Vec<u8>) -> (r: Option<usize>)
    requires
        bytes@.len() >= 10,
        pattern@.len() == 9,
    ensures
        r matches Some(i) ==> i == first_match_from(bytes@, pattern@, 0),
        r is Some <==> first_match_from(bytes@, pattern@, 0) >= 0,
{
    let n = bytes.len();
    let mut i: usize = 0;
    while i < n - 10
        invariant
            n == bytes@.len(),
            10 <= n,
            i <= n - 10,
            pattern@.len() == 9,
            forall|j: int| 0 <= j < i ==> !bytes_match_at(bytes@, pattern@, j),
        decreases n - 10 - i,
    {
        if pattern_matches_at(bytes, pattern, i) {
            proof {
                lemma_first_match_from(bytes@, pattern@, 0);
            }
            return Some(i);
        }
        i = i + 1;
    }
    proof {
        lemma_first_match_from(bytes@, pattern@, 0);
    }
    None
}

/// The ready-check anchor as an executable pattern.
fn hdd_ready_check_pattern() -> (r: Vec<u8>)
    ensures
        r@ == hdd_ready_check_seq(),
{
    let mut v: Vec<u8> = Vec::new();
    v.push(X86_MOV_INTO_AH);
    v.push(0x10);
    v.push(X86_MOV_INTO_DL);
    v.push(0x80);
    v.push(X86_INT);
    v.push(0x13);
    v.push(X86_POP_DX);
    v.push(X86_POP_AX);
    v.push(X86_JC);
    proof {
        assert(v@ =~= hdd_ready_check_seq());
    }
    v
}

/// The INT 13h installation anchor as an executable pattern.
fn int_13_set_finished_pattern() -> (r: Vec<u8>)
    ensures
        r@ == int_13_set_finished_seq(),
{
    let mut v: Vec<u8> = Vec::new();
    v.push(X86_MOV_SEGMENT_REGISTER_TO_MEMORY_ADDRESS);
    v.push(X86_ES_SEGMENT_REGISTER);
    v.push(0x1e);
    v.push(0x20);
    v.push(X86_MOV_GENERAL_REGISTER_TO_MEMORY_ADDRESS);
    v.push(X86_DI_GENERAL_REGISTER);
    v.push(0x1c);
    v.push(0x20);
    v.push(X86_POP_ES);
    proof {
        assert(v@ =~= int_13_set_finished_seq());
    }
    v
}

/// The offset of the conditional jump inside the first ready-check anchor.
fn find_location_of_hdd_not_ready_jump(option_rom: &OptionRom) -> (r: Result<
    usize,
    OptionRomPatcherError,
>)
    requires
        option_rom.wf(),
    ensures
        r is Ok <==> first_hdd_ready_check(option_rom.bytes@) >= 0,
        r matches Ok(loc) ==> {
            &&& loc == hdd_not_ready_jump_location(option_rom.bytes@)
            &&& 8 <= loc < option_rom.bytes@.len() - 2
        },
        r is Err ==> r == Err::<usize, OptionRomPatcherError>(
            OptionRomPatcherError::CouldntLocateHddReadyCheck,
        ),
{
    let pattern = hdd_ready_check_pattern();
    proof {
        lemma_first_match_from(option_rom.bytes@, hdd_ready_check_seq(), 0);
    }
    match find_pattern_start(&option_rom.bytes, &pattern) {
        Some(i) => Ok(i + 8),
        None => Err(OptionRomPatcherError::CouldntLocateHddReadyCheck),
    }
}

/// The offset just past the first INT 13h installation anchor.
fn find_location_after_int_13_set(option_rom: &OptionRom) -> (r: Result<
    usize,
    OptionRomPatcherError,
>)
    requires
        option_rom.wf(),
    ensures
        r is Ok <==> first_int_13_set_finished(option_rom.bytes@) >= 0,
        r matches Ok(loc) ==> {
            &&& loc == after_int_13_set_location(option_rom.bytes@)
            &&& 9 <= loc < option_rom.bytes@.len() - 1
        },
        r is Err ==> r == Err::<usize, OptionRomPatcherError>(
            OptionRomPatcherError::CouldntLocateAfterInt13Set,
        ),
{
    let pattern = int_13_set_finished_pattern();
    proof {
        lemma_first_match_from(option_rom.bytes@, int_13_set_finished_seq(), 0);
    }
    match find_pattern_start(&option_rom.bytes, &pattern) {
        Some(i) => Ok(i + 9),
        None => Err(OptionRomPatcherError::CouldntLocateAfterInt13Set),
    }
}

/// Builds the patched byte image, or reports which step of the pipeline
/// failed; the result keeps the original length exactly.
fn generate_patched_rom(option_rom: &OptionRom) -> (r: Result<Vec<u8>, OptionRomPatcherError>)
    requires
        option_rom.wf(),
    ensures
        r is Ok <==> patch_ok(option_rom.bytes@),
        r matches Ok(v) ==> {
            &&& v@ == patched_bytes(option_rom.bytes@)
            &&& v@.len() == option_rom.bytes@.len()
        },
        r == Err::<Vec<u8>, OptionRomPatcherError>(
            OptionRomPatcherError::CouldntLocateHddReadyCheck,
        ) <==> first_hdd_ready_check(option_rom.bytes@) < 0,
        r == Err::<Vec<u8>, OptionRomPatcherError>(
            OptionRomPatcherError::CouldntLocateAfterInt13Set,
        ) <==> first_hdd_ready_check(option_rom.bytes@) >= 0 && first_int_13_set_finished(
            option_rom.bytes@,
        ) < 0,
        r == Err::<Vec<u8>, OptionRomPatcherError>(OptionRomPatcherError::JumpLengthTooBig)
            <==> first_hdd_ready_check(option_rom.bytes@) >= 0 && first_int_13_set_finished(
            option_rom.bytes@,
        ) >= 0 && !(0 <= patch_jump_length(option_rom.bytes@) <= 255),
{
    let location_of_hdd_not_ready_jump = match find_location_of_hdd_not_ready_jump(option_rom) {
        Err(e) => return Err(e),
        Ok(location) => location,
    };
    let location_of_int_13_set_finished = match find_location_after_int_13_set(option_rom) {
        Err(e) => return Err(e),
        Ok(location) => location,
    };
    // The jump is counted from the byte after its own two-byte encoding.
    if location_of_int_13_set_finished < location_of_hdd_not_ready_jump + 2 {
        return Err(OptionRomPatcherError::JumpLengthTooBig);
    }
    let jump_distance = location_of_int_13_set_finished - (location_of_hdd_not_ready_jump + 2);
    if jump_distance > 255 {
        return Err(OptionRomPatcherError::JumpLengthTooBig);
    }
    let jump_length: u8 = jump_distance as u8;
    let mut new_rom_bytes = copy_range(&option_rom.bytes, 0, location_of_hdd_not_ready_jump);
    new_rom_bytes.push(X86_JMP);
    new_rom_bytes.push(jump_length);
    append_range(
        &mut new_rom_bytes,
        &option_rom.bytes,
        location_of_hdd_not_ready_jump + 2,
        option_rom.bytes.len(),
    );
    proof {
        assert(new_rom_bytes@ =~= patched_bytes(option_rom.bytes@));
    }
    Ok(new_rom_bytes)
}

/// Patches the ROM and returns a brand-new image with a valid checksum; the
/// input is left unmodified. The output is a function of the input bytes
/// alone, so patching the same image always yields the same result.
pub fn patch_rom(option_rom: &OptionRom) -> (r: Result<OptionRom, OptionRomPatcherError>)
    requires
        option_rom.wf(),
    ensures
        r is Ok <==> patch_ok(option_rom.bytes@),
        r matches Ok(p) ==> {
            &&& p.wf()
            &&& p.bytes@ == corrected_bytes(patched_bytes(option_rom.bytes@))
            &&& p.bytes@.len() == option_rom.bytes@.len()
            &&& spec_checksum(p.bytes@) == 0
        },
        r == Err::<OptionRom, OptionRomPatcherError>(
            OptionRomPatcherError::CouldntLocateHddReadyCheck,
        ) <==> first_hdd_ready_check(option_rom.bytes@) < 0,
        r == Err::<OptionRom, OptionRomPatcherError>(
            OptionRomPatcherError::CouldntLocateAfterInt13Set,
        ) <==> first_hdd_ready_check(option_rom.bytes@) >= 0 && first_int_13_set_finished(
            option_rom.bytes@,
        ) < 0,
        r == Err::<OptionRom, OptionRomPatcherError>(OptionRomPatcherError::JumpLengthTooBig)
            <==> first_hdd_ready_check(option_rom.bytes@) >= 0 && first_int_13_set_finished(
            option_rom.bytes@,
        ) >= 0 && !(0 <= patch_jump_length(option_rom.bytes@) <= 255),
        r matches Err(e) ==> !(e is OptionRomGenerationError),
{
    let patched_rom_bytes: Vec<u8> = match generate_patched_rom(option_rom) {
        Ok(v) => v,
        Err(e) => return Err(e),
    };
    proof {
        let b = option_rom.bytes@;
        let v = patched_rom_bytes@;
        lemma_first_match_from(b, hdd_ready_check_seq(), 0);
        assert(v[0] == b[0]);
        assert(v[1] == b[1]);
        assert(v[2] == b[2]);
        assert(crate::option_rom::construct_ok(v, 0));
        assert(v.subrange(0, crate::option_rom::declared_rom_size(v, 0)) =~= v);
    }
    let mut patched_rom = match OptionRom::from(patched_rom_bytes, 0) {
        Ok(patched_rom) => patched_rom,
        Err(e) => return Err(OptionRomPatcherError::OptionRomGenerationError(e)),
    };
    patched_rom.correct_checksum_in_final_byte();
    Ok(patched_rom)
}

} // verus!
