use steampunk::memory::AtariRam;
use steampunk::memory::AtariRom;
use steampunk::memory::Read;
use steampunk::memory::ReadError;
use steampunk::memory::RomSizeError;
use steampunk::memory::SimpleRam;
use steampunk::memory::Write;
use steampunk::memory::WriteError;

#[test]
fn creating_empty_simple_ram() {
    let ram = SimpleRam::with_test_program(&[]);
    assert_eq!(ram.bytes[..0xFFFC], [0u8; 0xFFFC][..]);
}

#[test]
fn simple_ram_with_test_program() {
    let ram = SimpleRam::with_test_program(&[10, 56, 72, 255]);
    // Bytes until 0xF000 (exclusively) should have been zeroed.
    assert_eq!(ram.bytes[..0xF000], [0u8; 0xF000][..]);
    // Next, there should be our program.
    assert_eq!(ram.bytes[0xF000..0xF004], [10, 56, 72, 255][..]);
    // The rest, until 0xFFFC, should also be zeroed.
    assert_eq!(ram.bytes[0xF004..0xFFFC], [0u8; 0xFFFC - 0xF004][..]);
    // And finally, the reset vector.
    assert_eq!(ram.bytes[0xFFFC..0xFFFE], [0x00, 0xF0]);
}

#[test]
fn simple_ram_with_test_program_at() {
    let ram = SimpleRam::with_test_program_at(0xF110, &[10, 56, 72, 255]);
    assert_eq!(ram.bytes[..0xF110], [0u8; 0xF110][..]);
    assert_eq!(ram.bytes[0xF110..0xF114], [10, 56, 72, 255][..]);
    assert_eq!(ram.bytes[0xF114..0xFFFC], [0u8; 0xFFFC - 0xF114][..]);
    assert_eq!(ram.bytes[0xFFFC..0xFFFE], [0x10, 0xF1]);
}

#[test]
fn simple_ram_with_test_program_sets_reset_address() {
    let ram = SimpleRam::with_test_program(&[0xFF; 0x1000]);
    assert_eq!(ram.bytes[0xFFFC..0xFFFE], [0x00, 0xF0]); // 0xF000
}

#[test]
fn simple_ram_initialized_with_value() {
    let ram = SimpleRam::initialized_with(0xAB);
    assert!(ram.bytes.iter().all(|b| *b == 0xAB));
    assert_eq!(ram.read(0x1234).unwrap(), 0xAB);
}

#[test]
fn simple_ram_read_write() {
    let mut ram = SimpleRam::new();
    ram.write(0xFFFF, 7).unwrap();
    assert_eq!(ram.read(0xFFFF).unwrap(), 7);
    assert_eq!(ram.read(0xFFFE).unwrap(), 0);
}

#[test]
fn atari_ram_read_write() {
    let mut ram = AtariRam::new();
    ram.write(0x00AB, 123).unwrap();
    ram.write(0x00AC, 234).unwrap();
    assert_eq!(ram.read(0x00AB).unwrap(), 123);
    assert_eq!(ram.read(0x00AC).unwrap(), 234);
}

#[test]
fn atari_ram_mirroring() {
    let mut ram = AtariRam::new();
    ram.write(0x0080, 1).unwrap();
    assert_eq!(ram.read(0x0080).unwrap(), 1);
    assert_eq!(ram.read(0x2880).unwrap(), 1);
    assert_eq!(ram.read(0xCD80).unwrap(), 1);
}

#[test]
fn atari_rom_4k() {
    let mut program = [0u8; 0x1000];
    program[5] = 1;
    let rom = AtariRom::new(&program).unwrap();
    assert_eq!(rom.read(0x1000).unwrap(), 0);
    assert_eq!(rom.read(0x1005).unwrap(), 1);
    assert_eq!(rom.read(0x3005).unwrap(), 1);
    assert_eq!(rom.read(0xF005).unwrap(), 1);
}

#[test]
fn atari_rom_2k() {
    let mut program = [0u8; 0x0800];
    program[5] = 1;
    let rom = AtariRom::new(&program).unwrap();
    assert_eq!(rom.read(0x1000).unwrap(), 0);
    assert_eq!(rom.read(0x1005).unwrap(), 1);
    assert_eq!(rom.read(0x3005).unwrap(), 1);
    assert_eq!(rom.read(0xF005).unwrap(), 1);
    assert_eq!(rom.read(0xF805).unwrap(), 1);
}

#[test]
fn atari_rom_illegal_size() {
    let rom = AtariRom::new(&[0u8; 0x0900]);
    assert_eq!(rom.err(), Some(RomSizeError { size: 0x900 }));
}

#[test]
fn atari_rom_empty_is_illegal() {
    let rom = AtariRom::new(&[]);
    assert_eq!(rom.err(), Some(RomSizeError { size: 0 }));
}

#[test]
fn error_messages() {
    assert_eq!(
        ReadError { address: 0xD012 }.message(),
        "Unable to read from address $D012"
    );
    assert_eq!(
        WriteError { address: 0x0400, value: 0x0F }.message(),
        "Unable to write $0F to address $0400"
    );
    assert_eq!(
        RomSizeError { size: 3 }.message(),
        "Illegal ROM size: 3 bytes. Valid sizes: 2048, 4096"
    );
}
