use vstd::prelude::*;

verus! {

/// The size of the address space, in bytes.
pub const MAX_MEM_SIZE: usize = 4096;

/// The number of bytes of the built-in hexadecimal font.
pub const FONT_SIZE: usize = 80;

/// The address at which user programs start.
pub const PROGRAM_START: usize = 0x200;

/// The built-in font: five bytes for each of the glyphs 0-9, A-F.
pub open spec fn font_table() -> Seq<u8> {
    seq![
        0xF0u8, 0x90, 0x90, 0x90, 0xF0, // 0
        0x20, 0x60, 0x20, 0x20, 0x70, // 1
        0xF0, 0x10, 0xF0, 0x80, 0xF0, // 2
        0xF0, 0x10, 0xF0, 0x10, 0xF0, // 3
        0x90, 0x90, 0xF0, 0x10, 0x10, // 4
        0xF0, 0x80, 0xF0, 0x10, 0xF0, // 5
        0xF0, 0x80, 0xF0, 0x90, 0xF0, // 6
        0xF0, 0x10, 0x20, 0x40, 0x40, // 7
        0xF0, 0x90, 0xF0, 0x90, 0xF0, // 8
        0xF0, 0x90, 0xF0, 0x10, 0xF0, // 9
        0xF0, 0x90, 0xF0, 0x90, 0x90, // A
        0xE0, 0x90, 0xE0, 0x90, 0xE0, // B
        0xF0, 0x80, 0x80, 0x80, 0xF0, // C
        0xE0, 0x90, 0x90, 0x90, 0xE0, // D
        0xF0, 0x80, 0xF0, 0x80, 0xF0, // E
        0xF0, 0x80, 0xF0, 0x80, 0x80, // F
    ]
}

/// Memory as it is right after construction: the font at the bottom,
/// zero everywhere else.
pub open spec fn initial_memory() -> Seq<u8> {
    Seq::new(MAX_MEM_SIZE as nat, |i: int| if i < FONT_SIZE { font_table()[i] } else { 0u8 })
}

/// Whether an address lies inside the address space.
pub open spec fn in_range(address: int) -> bool {
    0 <= address < MAX_MEM_SIZE
}

/// The address space of the machine: 4096 bytes.
pub struct Memory {
    pages: Vec<u8>,
}

/// A failed memory access.
#[derive(Debug, Clone, Copy, PartialEq, Eq, Structural)]
pub enum AccessError {
    /// The address lies outside [0, 4095].
    AddressOutOfRange,
}

impl View for Memory {
    type V = Seq<u8>;

    closed spec fn view(&self) -> Seq<u8> {
        self.pages@
    }
}

impl Memory {
    /// The memory always holds exactly 4096 bytes.
    pub open spec fn wf(&self) -> bool {
        self@.len() == MAX_MEM_SIZE
    }

    /// Zero-filled memory with the font at addresses 0..80.
    pub fn new() -> (r: Self)
        ensures
            r.wf(),
            r@ == initial_memory(),
    {
        let glyphs: [u8; 80] = [
            0xF0, 0x90, 0x90, 0x90, 0xF0, // 0
            0x20, 0x60, 0x20, 0x20, 0x70, // 1
            0xF0, 0x10, 0xF0, 0x80, 0xF0, // 2
            0xF0, 0x10, 0xF0, 0x10, 0xF0, // 3
            0x90, 0x90, 0xF0, 0x10, 0x10, // 4
            0xF0, 0x80, 0xF0, 0x10, 0xF0, // 5
            0xF0, 0x80, 0xF0, 0x90, 0xF0, // 6
            0xF0, 0x10, 0x20, 0x40, 0x40, // 7
            0xF0, 0x90, 0xF0, 0x90, 0xF0, // 8
            0xF0, 0x90, 0xF0, 0x10, 0xF0, // 9
            0xF0, 0x90, 0xF0, 0x90, 0x90, // A
            0xE0, 0x90, 0xE0, 0x90, 0xE0, // B
            0xF0, 0x80, 0x80, 0x80, 0xF0, // C
            0xE0, 0x90, 0x90, 0x90, 0xE0, // D
            0xF0, 0x80, 0xF0, 0x80, 0xF0, // E
            0xF0, 0x80, 0xF0, 0x80, 0x80, // F
        ];
        assert(glyphs@ =~= font_table());
        let mut pages: Vec<u8> = vec![0u8; MAX_MEM_SIZE];
        let mut i: usize = 0;
        while i < FONT_SIZE
            invariant
                i <= FONT_SIZE,
                glyphs@ == font_table(),
                pages@.len() == MAX_MEM_SIZE,
                forall|j: int| 0 <= j < i ==> pages@[j] == font_table()[j],
                forall|j: int| i <= j < MAX_MEM_SIZE ==> pages@[j] == 0u8,
            decreases FONT_SIZE - i,
        {
            pages.set(i, glyphs[i]);
            i = i + 1;
        }
        let r = Memory { pages };
        assert(r@ =~= initial_memory());
        r
    }

    /// Writes `val` at `address`; an address outside the space is refused
    /// and nothing changes.
    pub fn write(&mut self, address: u16, val: u8) -> (r: Result<(), AccessError>)
        requires
            old(self).wf(),
        ensures
            final(self).wf(),
            in_range(address as int) ==> r is Ok && final(self)@ == old(self)@.update(
                address as int,
                val,
            ),
            !in_range(address as int) ==> r == Err::<(), AccessError>(
                AccessError::AddressOutOfRange,
            ) && final(self)@ == old(self)@,
    {
        if address as usize >= MAX_MEM_SIZE {
            return Err(AccessError::AddressOutOfRange);
        }
        self.pages.set(address as usize, val);
        Ok(())
    }

    /// Reads the byte at `address`; an address outside the space is refused.
    pub fn read(&self, address: u16) -> (r: Result<u8, AccessError>)
        requires
            self.wf(),
        ensures
            in_range(address as int) ==> r == Ok::<u8, AccessError>(self@[address as int]),
            !in_range(address as int) ==> r == Err::<u8, AccessError>(
                AccessError::AddressOutOfRange,
            ),
    {
        if address as usize >= MAX_MEM_SIZE {
            return Err(AccessError::AddressOutOfRange);
        }
        Ok(self.pages[address as usize])
    }
}

/// A byte written at an address in range is what a read there gives back,
/// and every other address keeps its byte.
pub proof fn lemma_read_after_write(mem: Seq<u8>, address: u16, val: u8, other: u16)
    requires
        mem.len() == MAX_MEM_SIZE,
        in_range(address as int),
    ensures
        mem.update(address as int, val)[address as int] == val,
        other != address && in_range(other as int) ==> mem.update(address as int, val)[other as int]
            == mem[other as int],
{
}

/// Fresh memory holds the font in bytes 0 to 79 and zero in bytes 80 to
/// 4095, the interpreter area above the font included.
pub proof fn lemma_initial_memory()
    ensures
        initial_memory().len() == MAX_MEM_SIZE,
        forall|i: int| 0 <= i < FONT_SIZE ==> #[trigger] initial_memory()[i] == font_table()[i],
        forall|i: int| FONT_SIZE <= i < MAX_MEM_SIZE ==> #[trigger] initial_memory()[i] == 0,
{
}

} // verus!
