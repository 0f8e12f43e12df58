use option_rom::option_rom::OptionRom;
use option_rom::splice::splice_rom_into_file;

/// A 10240-byte container with distinct, position-dependent byte values.
fn source_file() -> Vec<u8> {
    (0..10240usize).map(|i| (i % 251) as u8).collect()
}

/// A valid 8192-byte ROM whose body is filled with 0xCC.
fn rom_fixture() -> OptionRom {
    let mut bytes = vec![0xCCu8; 8192];
    bytes[0] = 0x55;
    bytes[1] = 0xAA;
    bytes[2] = 0x10;
    let partial: u32 = bytes[..8191].iter().map(|b| *b as u32).sum();
    bytes[8191] = ((256 - (partial % 256)) % 256) as u8;
    OptionRom::from(bytes, 0).expect("the ROM fixture should construct")
}

fn assert_spliced(output: &[u8], source: &[u8], rom: &[u8], k: usize) {
    let rom_end = k + rom.len();
    let expected_len = if rom_end > source.len() { rom_end } else { source.len() };
    assert_eq!(output.len(), expected_len);
    for i in 0..k.min(source.len()) {
        assert_eq!(output[i], source[i], "byte {} before the ROM changed", i);
    }
    for i in source.len()..k {
        assert_eq!(output[i], 0, "gap byte {} was not zero-filled", i);
    }
    assert_eq!(&output[k..rom_end], rom);
    for i in rom_end..source.len() {
        assert_eq!(output[i], source[i], "byte {} after the ROM changed", i);
    }
}

#[test]
fn splice_at_start_of_file() {
    let source = source_file();
    let rom = rom_fixture();
    let output = splice_rom_into_file(&source, &rom, 0);
    assert_spliced(&output, &source, &rom.bytes, 0);
}

#[test]
fn splice_in_middle_of_file() {
    let source = source_file();
    let rom = rom_fixture();
    let output = splice_rom_into_file(&source, &rom, 0x1000);
    assert_spliced(&output, &source, &rom.bytes, 0x1000);
}

#[test]
fn splice_ending_exactly_at_end_of_file() {
    let source = source_file();
    let rom = rom_fixture();
    let output = splice_rom_into_file(&source, &rom, 0x800);
    assert_eq!(output.len(), source.len());
    assert_spliced(&output, &source, &rom.bytes, 0x800);
}

#[test]
fn splice_overlapping_end_of_file() {
    let source = source_file();
    let rom = rom_fixture();
    let output = splice_rom_into_file(&source, &rom, 0x2000);
    assert_spliced(&output, &source, &rom.bytes, 0x2000);
}

#[test]
fn splice_appended_at_end_of_file() {
    let source = source_file();
    let rom = rom_fixture();
    let output = splice_rom_into_file(&source, &rom, 0x2800);
    assert_spliced(&output, &source, &rom.bytes, 0x2800);
}

#[test]
fn splice_beyond_end_of_file_zero_fills_the_gap() {
    let source = source_file();
    let rom = rom_fixture();
    let output = splice_rom_into_file(&source, &rom, 0x2A00);
    assert_spliced(&output, &source, &rom.bytes, 0x2A00);
}

#[test]
fn splice_into_empty_source() {
    let source: Vec<u8> = Vec::new();
    let rom = rom_fixture();
    let output = splice_rom_into_file(&source, &rom, 0);
    assert_eq!(output, rom.bytes);
}
