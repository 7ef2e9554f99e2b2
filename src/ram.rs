use vstd::prelude::*;

verus! {

/// Size of the full 16-bit address space.
pub const RAM_SIZE: usize = 0x10000;

/// Where a cartridge program is loaded.
pub const PROGRAM_START: usize = 0xF000;

/// Where the second copy of a 2-kilobyte cartridge is mirrored.
pub const PROGRAM_MIRROR_START: usize = 0xF800;

/// Size of a cartridge that is mirrored twice in the upper 4 kilobytes.
pub const MIRRORED_PROGRAM_SIZE: usize = 0x800;

/// Address of the little-endian reset vector.
pub const RESET_VECTOR: usize = 0xFFFC;

#[derive(Debug, Clone, Copy, PartialEq, Eq, Structural)]
pub struct ReadError {
    pub address: u16,
}

#[derive(Debug, Clone, Copy, PartialEq, Eq, Structural)]
pub struct WriteError {
    pub address: u16,
    pub value: u8,
}

pub type ReadResult = Result<u8, ReadError>;

pub type WriteResult = Result<(), WriteError>;

impl ReadError {
    /// Human-readable description of the failure.
    pub fn message(&self) -> String {
        format_read_error(self.address)
    }
}

impl WriteError {
    /// Human-readable description of the failure.
    pub fn message(&self) -> String {
        format_write_error(self.address, self.value)
    }
}

/// Relies on std's `format!` to render the address as four hex digits.
#[verifier::external_body]
fn format_read_error(address: u16) -> String {
    format!("Unable to read from address ${:04X}", address)
}

/// Relies on std's `format!` to render the value and the address in hex.
#[verifier::external_body]
fn format_write_error(address: u16, value: u8) -> String {
    format!("Unable to write ${:02X} to address ${:04X}", value, address)
}

/// A byte-addressable memory that can be both read and written.
pub trait Memory {
    /// The outcome of reading `address`.
    spec fn read_spec(&self, address: u16) -> ReadResult;

    /// Writes a byte to given address. Returns error if the location is
    /// unsupported. In a release build, the errors should be ignored and the
    /// method should always return a successful result.
    fn write(&mut self, address: u16, value: u8) -> (r: WriteResult);

    /// Reads a byte from given address. Returns the byte or error if the
    /// location is unsupported. In a release build, the errors should be
    /// ignored and the method should always return a successful result.
    fn read(&self, address: u16) -> (r: ReadResult)
        ensures
            r == self.read_spec(address),
    ;
}

/// Contents of memory loaded with a cartridge: the program at 0xF000 and, for
/// a 2-kilobyte cartridge, its mirror at 0xF800; zeros elsewhere.
pub open spec fn program_byte(program: Seq<u8>, i: int) -> u8 {
    if PROGRAM_START <= i < PROGRAM_START + program.len() {
        program[i - PROGRAM_START]
    } else if program.len() == MIRRORED_PROGRAM_SIZE && PROGRAM_MIRROR_START <= i
        < PROGRAM_MIRROR_START + program.len() {
        program[i - PROGRAM_MIRROR_START]
    } else {
        0
    }
}

/// Contents of memory loaded with a test program: the program at 0xF000 and
/// the reset vector pointing at it; zeros elsewhere.
pub open spec fn test_program_byte(program: Seq<u8>, i: int) -> u8 {
    if i == RESET_VECTOR {
        0x00
    } else if i == RESET_VECTOR + 1 {
        0xF0
    } else if PROGRAM_START <= i < PROGRAM_START + program.len() {
        program[i - PROGRAM_START]
    } else {
        0
    }
}

/// A very simple memory structure. At the moment, it's just a 64-kilobyte
/// chunk of RAM, for simplicity of addressing.
pub struct RAM {
    pub bytes: [u8; RAM_SIZE],
}

impl RAM {
    pub fn new() -> (r: RAM)
        ensures
            forall|i: int| 0 <= i < RAM_SIZE ==> r.bytes@[i] == 0,
    {
        RAM {
            bytes: [0; RAM_SIZE],  // Fill the entire RAM with 0x00.
        }
    }

    pub fn with_program(program: &[u8]) -> (r: RAM)
        requires
            PROGRAM_START + program@.len() <= RAM_SIZE,
        ensures
            forall|i: int| 0 <= i < RAM_SIZE ==> r.bytes@[i] == program_byte(program@, i),
    {
        let mut ram = RAM::new();
        let mirrored = program.len() == MIRRORED_PROGRAM_SIZE;
        // Copy the program into memory. If the program is a 2K cartridge,
        // place it in two mirror copies, starting from addresses 0xF000 and
        // 0xF800.
        let mut i: usize = 0;
        while i < program.len()
            invariant
                PROGRAM_START + program@.len() <= RAM_SIZE,
                mirrored == (program@.len() == MIRRORED_PROGRAM_SIZE),
                i <= program@.len(),
                forall|j: int|
                    0 <= j < RAM_SIZE ==> ram.bytes@[j] == if PROGRAM_START <= j < PROGRAM_START
                        + i {
                        program@[j - PROGRAM_START]
                    } else if mirrored && PROGRAM_MIRROR_START <= j < PROGRAM_MIRROR_START + i {
                        program@[j - PROGRAM_MIRROR_START]
                    } else {
                        0
                    },
            decreases program@.len() - i,
        {
            ram.bytes[PROGRAM_START + i] = program[i];
            if mirrored {
                ram.bytes[PROGRAM_MIRROR_START + i] = program[i];
            }
            i = i + 1;
        }
        ram
    }

    /// Creates a new `RAM`, putting given `program` at address 0xF000. It
    /// also sets the reset pointer to 0xF000.
    pub fn with_test_program(program: &[u8]) -> (r: RAM)
        requires
            PROGRAM_START + program@.len() <= RAM_SIZE,
        ensures
            forall|i: int| 0 <= i < RAM_SIZE ==> r.bytes@[i] == test_program_byte(program@, i),
    {
        let mut ram = RAM::new();
        // Copy the program into memory, starting from address 0xF000.
        let mut i: usize = 0;
        while i < program.len()
            invariant
                PROGRAM_START + program@.len() <= RAM_SIZE,
                i <= program@.len(),
                forall|j: int|
                    0 <= j < RAM_SIZE ==> ram.bytes@[j] == if PROGRAM_START <= j < PROGRAM_START
                        + i {
                        program@[j - PROGRAM_START]
                    } else {
                        0
                    },
            decreases program@.len() - i,
        {
            ram.bytes[PROGRAM_START + i] = program[i];
            i = i + 1;
        }
        // Initialize the reset address (stored at 0xFFFC) to 0xF000.
        ram.bytes[RESET_VECTOR] = 0x00;  // least-significant byte
        ram.bytes[RESET_VECTOR + 1] = 0xF0;  // most-significant byte
        ram
    }
}

impl Memory for RAM {
    open spec fn read_spec(&self, address: u16) -> ReadResult {
        Ok(self.bytes@[address as int])
    }

    fn read(&self, address: u16) -> (r: ReadResult) {
        Ok(self.bytes[address as usize])
    }

    fn write(&mut self, address: u16, value: u8) -> (r: WriteResult)
        ensures
            r is Ok,
            final(self).bytes@ == old(self).bytes@.update(address as int, value),
    {
        self.bytes[address as usize] = value;
        Ok(())
    }
}

} // verus!
