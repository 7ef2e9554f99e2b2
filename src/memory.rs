use vstd::prelude::*;

verus! {

/// Size of the full 16-bit address space.
pub const SIMPLE_RAM_SIZE: usize = 0x10000;

/// Size of the Atari 2600 RAM; every access is mirrored into this range.
pub const ATARI_RAM_SIZE: usize = 0x80;

/// Address of the little-endian reset vector.
pub const RESET_VECTOR: usize = 0xFFFC;

/// Default location of a test program.
pub const TEST_PROGRAM_ADDRESS: u16 = 0xF000;

#[derive(Debug, Clone, Copy, PartialEq, Eq, Structural)]
pub struct ReadError {
    pub address: u16,
}

#[derive(Debug, Clone, Copy, PartialEq, Eq, Structural)]
pub struct WriteError {
    pub address: u16,
    pub value: u8,
}

pub type ReadResult = Result<u8, ReadError>;

pub type WriteResult = Result<(), WriteError>;

impl ReadError {
    /// Human-readable description of the failure.
    pub fn message(&self) -> String {
        format_read_error(self.address)
    }
}

impl WriteError {
    /// Human-readable description of the failure.
    pub fn message(&self) -> String {
        format_write_error(self.address, self.value)
    }
}

/// Relies on std's `format!` to render the address as four hex digits.
#[verifier::external_body]
fn format_read_error(address: u16) -> String {
    format!("Unable to read from address ${:04X}", address)
}

/// Relies on std's `format!` to render the value and the address in hex.
#[verifier::external_body]
fn format_write_error(address: u16, value: u8) -> String {
    format!("Unable to write ${:02X} to address ${:04X}", value, address)
}

/// A byte-addressable source of data.
pub trait Read {
    /// The outcome of reading `address`; it depends on the address and the
    /// memory contents alone.
    spec fn read_spec(&self, address: u16) -> ReadResult;

    /// Reads a byte from given address. Returns the byte or error if the
    /// location is unsupported. In a release build, the errors should be
    /// ignored and the method should always return a successful result.
    fn read(&self, address: u16) -> (r: ReadResult)
        ensures
            r == self.read_spec(address),
    ;
}

/// A byte-addressable sink of data. Each implementation states precisely how
/// a write changes it.
pub trait Write {
    /// Writes a byte to given address. Returns error if the location is
    /// unsupported. In a release build, the errors should be ignored and the
    /// method should always return a successful result.
    fn write(&mut self, address: u16, value: u8) -> (r: WriteResult);
}

pub trait Memory: Read + Write {}

/// Contents of a freshly loaded test program image: zeros everywhere but the
/// program itself at `address` and the reset vector pointing at `address`.
pub open spec fn test_program_byte(address: u16, program: Seq<u8>, i: int) -> u8 {
    if i == RESET_VECTOR {
        address as u8
    } else if i == RESET_VECTOR + 1 {
        (address >> 8) as u8
    } else if address <= i < address + program.len() {
        program[i - address]
    } else {
        0
    }
}

/// A very simple memory structure: just a 64-kilobyte chunk of RAM.
pub struct SimpleRam {
    pub bytes: [u8; SIMPLE_RAM_SIZE],
}

impl SimpleRam {
    pub fn new() -> (r: SimpleRam)
        ensures
            forall|i: int| 0 <= i < SIMPLE_RAM_SIZE ==> r.bytes@[i] == 0,
    {
        SimpleRam {
            bytes: [0; SIMPLE_RAM_SIZE],  // Fill the entire RAM with 0x00.
        }
    }

    pub fn initialized_with(value: u8) -> (r: SimpleRam)
        ensures
            forall|i: int| 0 <= i < SIMPLE_RAM_SIZE ==> r.bytes@[i] == value,
    {
        SimpleRam { bytes: [value; SIMPLE_RAM_SIZE] }
    }

    /// Creates a new `SimpleRam`, putting given `program` at address 0xF000.
    /// It also sets the reset pointer to 0xF000.
    pub fn with_test_program(program: &[u8]) -> (r: SimpleRam)
        requires
            TEST_PROGRAM_ADDRESS + program@.len() <= SIMPLE_RAM_SIZE,
        ensures
            forall|i: int|
                0 <= i < SIMPLE_RAM_SIZE ==> r.bytes@[i] == test_program_byte(
                    TEST_PROGRAM_ADDRESS,
                    program@,
                    i,
                ),
    {
        Self::with_test_program_at(TEST_PROGRAM_ADDRESS, program)
    }

    /// Creates a new `SimpleRam`, putting given `program` at a given address.
    /// It also sets the reset pointer to this address.
    pub fn with_test_program_at(address: u16, program: &[u8]) -> (r: SimpleRam)
        requires
            address + program@.len() <= SIMPLE_RAM_SIZE,
        ensures
            forall|i: int|
                0 <= i < SIMPLE_RAM_SIZE ==> r.bytes@[i] == test_program_byte(
                    address,
                    program@,
                    i,
                ),
    {
        let mut ram = SimpleRam::new();
        let start = address as usize;
        let mut i: usize = 0;
        while i < program.len()
            invariant
                start == address,
                start + program@.len() <= SIMPLE_RAM_SIZE,
                i <= program@.len(),
                forall|j: int|
                    0 <= j < SIMPLE_RAM_SIZE ==> ram.bytes@[j] == if start <= j < start + i {
                        program@[j - start]
                    } else {
                        0
                    },
            decreases program@.len() - i,
        {
            ram.bytes[start + i] = program[i];
            i = i + 1;
        }
        ram.bytes[RESET_VECTOR] = address as u8;  // least-significant byte
        ram.bytes[RESET_VECTOR + 1] = (address >> 8) as u8;  // most-significant byte
        ram
    }
}

impl Read for SimpleRam {
    open spec fn read_spec(&self, address: u16) -> ReadResult {
        Ok(self.bytes@[address as int])
    }

    fn read(&self, address: u16) -> (r: ReadResult) {
        Ok(self.bytes[address as usize])
    }
}

impl Write for SimpleRam {
    fn write(&mut self, address: u16, value: u8) -> (r: WriteResult)
        ensures
            r is Ok,
            final(self).bytes@ == old(self).bytes@.update(address as int, value),
    {
        self.bytes[address as usize] = value;
        Ok(())
    }
}

impl Memory for SimpleRam {}

/// A 128-byte memory structure that acts as Atari RAM and supports memory
/// space mirroring.
#[derive(Debug)]
pub struct AtariRam {
    bytes: [u8; ATARI_RAM_SIZE],
}

/// The RAM cell that an address is mirrored to.
pub open spec fn atari_ram_index(address: u16) -> int {
    (address % 0x80) as int
}

impl View for AtariRam {
    type V = Seq<u8>;

    closed spec fn view(&self) -> Seq<u8> {
        self.bytes@
    }
}

impl AtariRam {
    pub fn new() -> (r: AtariRam)
        ensures
            r@ == Seq::new(ATARI_RAM_SIZE as nat, |i: int| 0u8),
    {
        let r = AtariRam { bytes: [0; ATARI_RAM_SIZE] };
        assert(r@ =~= Seq::new(ATARI_RAM_SIZE as nat, |i: int| 0u8));
        r
    }
}

impl Read for AtariRam {
    open spec fn read_spec(&self, address: u16) -> ReadResult {
        Ok(self@[atari_ram_index(address)])
    }

    fn read(&self, address: u16) -> (r: ReadResult) {
        assert((address as usize & 0b0111_1111) == address % 0x80) by (bit_vector);
        Ok(self.bytes[address as usize & 0b0111_1111])
    }
}

impl Write for AtariRam {
    fn write(&mut self, address: u16, value: u8) -> (r: WriteResult)
        ensures
            r is Ok,
            final(self)@ == old(self)@.update(atari_ram_index(address), value),
    {
        assert((address as usize & 0b0111_1111) == address % 0x80) by (bit_vector);
        self.bytes[address as usize & 0b0111_1111] = value;
        Ok(())
    }
}

impl Memory for AtariRam {}

#[derive(Debug, Clone, Copy, PartialEq, Eq)]
pub struct RomSizeError {
    pub size: usize,
}

impl RomSizeError {
    /// Human-readable description of the failure.
    pub fn message(&self) -> String {
        format_rom_size_error(self.size)
    }
}

/// Relies on std's `format!` to render the size in decimal.
#[verifier::external_body]
fn format_rom_size_error(size: usize) -> String {
    format!("Illegal ROM size: {} bytes. Valid sizes: 2048, 4096", size)
}

/// The ROM sizes that a cartridge may have.
pub open spec fn is_valid_rom_size(size: nat) -> bool {
    size == 0x800 || size == 0x1000
}

/// An Atari 2600 cartridge ROM of 2 or 4 kilobytes, mirrored over the whole
/// address space.
pub struct AtariRom {
    bytes: Vec<u8>,
    address_mask: u16,
}

impl View for AtariRom {
    type V = Seq<u8>;

    closed spec fn view(&self) -> Seq<u8> {
        self.bytes@
    }
}

impl AtariRom {
    #[verifier::type_invariant]
    spec fn mask_fits_size(&self) -> bool {
        is_valid_rom_size(self.bytes@.len()) && self.address_mask == self.bytes@.len() - 1
    }

    /// The mask that maps an address onto the ROM contents.
    pub closed spec fn mask(&self) -> u16 {
        self.address_mask
    }

    pub fn new(bytes: &[u8]) -> (r: Result<Self, RomSizeError>)
        ensures
            match r {
                Ok(rom) => is_valid_rom_size(bytes@.len()) && rom@ == bytes@ && rom.mask()
                    == bytes@.len() - 1,
                Err(e) => !is_valid_rom_size(bytes@.len()) && e == RomSizeError {
                    size: bytes@.len() as usize,
                },
            },
    {
        let len = bytes.len();
        if len == 0x800 || len == 0x1000 {
            let address_mask: u16 = if len == 0x1000 {
                0b0000_1111_1111_1111
            } else {
                0b0000_0111_1111_1111
            };
            Ok(AtariRom { bytes: vstd::slice::slice_to_vec(bytes), address_mask })
        } else {
            Err(RomSizeError { size: len })
        }
    }
}

impl Read for AtariRom {
    open spec fn read_spec(&self, address: u16) -> ReadResult {
        Ok(self@[(address & self.mask()) as int])
    }

    fn read(&self, address: u16) -> (r: ReadResult) {
        proof {
            use_type_invariant(self);
        }
        let mask = self.address_mask;
        assert((address & mask) <= mask) by (bit_vector);
        Ok(self.bytes[(address & self.address_mask) as usize])
    }
}

} // verus!
