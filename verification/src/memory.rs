//! Flat 4096-byte memory holding the built-in glyph font at its base and
//! the loaded program from offset 0x200, with byte and big-endian word
//! access. Addresses are taken modulo the memory size.

use vstd::prelude::*;

verus! {

/// Size of the address space in bytes.
pub const MEMORY_SIZE: usize = 4096;

/// Offset at which the program image is loaded.
pub const PROGRAM_START: usize = 512;

/// Bytes of one glyph sprite.
pub const GLYPH_SIZE: usize = 5;

/// The built-in 5-byte sprites for the hexadecimal digits 0 to F, stored in
/// order from the base of memory.
pub open spec fn font() -> Seq<u8> {
    seq![
        0xF0u8, 0x90, 0x90, 0x90, 0xF0, // 0
        0x20, 0x60, 0x20, 0x20, 0x70, // 1
        0xF0, 0x10, 0xF0, 0x80, 0xF0, // 2
        0xF0, 0x10, 0xF0, 0x10, 0xF0, // 3
        0x90, 0x90, 0xF0, 0x10, 0x10, // 4
        0xF0, 0x80, 0xF0, 0x10, 0xF0, // 5
        0xF0, 0x80, 0xF0, 0x90, 0xF0, // 6
        0xF0, 0x10, 0x20, 0x40, 0x40, // 7
        0xF0, 0x90, 0xF0, 0x90, 0xF0, // 8
        0xF0, 0x90, 0xF0, 0x10, 0xF0, // 9
        0xF0, 0x90, 0xF0, 0x90, 0x90, // A
        0xE0, 0x90, 0xE0, 0x90, 0xE0, // B
        0xF0, 0x80, 0x80, 0x80, 0xF0, // C
        0xE0, 0x90, 0x90, 0x90, 0xE0, // D
        0xF0, 0x80, 0xF0, 0x80, 0xF0, // E
        0xF0, 0x80, 0xF0, 0x80, 0x80, // F
    ]
}

/// A 16-bit value offset by at most one wrap of the range: the arithmetic
/// the program counter and index register perform.
pub open spec fn wrap16(x: int) -> u16 {
    if x > 65535 {
        (x - 65536) as u16
    } else if x < 0 {
        (x + 65536) as u16
    } else {
        x as u16
    }
}

/// The memory slot a 16-bit address refers to: its low twelve bits.
pub open spec fn index_of(addr: u16) -> int {
    (addr & 0xfff) as int
}

/// The big-endian 16-bit word at `addr`: the byte there is the high byte
/// and the byte at the following address the low byte.
pub open spec fn word_at(mem: Seq<u8>, addr: u16) -> u16 {
    (mem[index_of(addr)] * 256 + mem[index_of(wrap16(addr + 1))]) as u16
}

/// Addressable byte store holding the glyph font and the program image.
pub struct Memory {
    bytes: Vec<u8>,
}

impl Memory {
    /// The contents of every memory slot.
    pub closed spec fn view(&self) -> Seq<u8> {
        self.bytes@
    }

    /// The store spans the whole address space.
    pub closed spec fn wf(&self) -> bool {
        self@.len() == MEMORY_SIZE
    }

    /// Creates the memory: zeroed, with the glyph font at the base and the
    /// program bytes copied in from offset 0x200. The program must fit in
    /// the space above that offset.
    pub fn new(game: &[u8]) -> (m: Memory)
        requires
            game@.len() <= MEMORY_SIZE - PROGRAM_START,
        ensures
            m.wf(),
            forall|i: int| 0 <= i < font().len() ==> m@[i] == font()[i],
            forall|i: int| font().len() <= i < PROGRAM_START ==> m@[i] == 0,
            forall|i: int|
                0 <= i < game@.len() ==> m@[PROGRAM_START + i] == game@[i],
            forall|i: int|
                PROGRAM_START + game@.len() <= i < MEMORY_SIZE ==> m@[i] == 0,
    {
        let mut bytes: Vec<u8> = vec![0u8; 4096];
        let glyphs: Vec<u8> = vec![
            0xF0u8, 0x90, 0x90, 0x90, 0xF0, // 0
            0x20, 0x60, 0x20, 0x20, 0x70, // 1
            0xF0, 0x10, 0xF0, 0x80, 0xF0, // 2
            0xF0, 0x10, 0xF0, 0x10, 0xF0, // 3
            0x90, 0x90, 0xF0, 0x10, 0x10, // 4
            0xF0, 0x80, 0xF0, 0x10, 0xF0, // 5
            0xF0, 0x80, 0xF0, 0x90, 0xF0, // 6
            0xF0, 0x10, 0x20, 0x40, 0x40, // 7
            0xF0, 0x90, 0xF0, 0x90, 0xF0, // 8
            0xF0, 0x90, 0xF0, 0x10, 0xF0, // 9
            0xF0, 0x90, 0xF0, 0x90, 0x90, // A
            0xE0, 0x90, 0xE0, 0x90, 0xE0, // B
            0xF0, 0x80, 0x80, 0x80, 0xF0, // C
            0xE0, 0x90, 0x90, 0x90, 0xE0, // D
            0xF0, 0x80, 0xF0, 0x80, 0xF0, // E
            0xF0, 0x80, 0xF0, 0x80, 0x80, // F
        ];
        proof {
            assert(glyphs@ =~= font());
        }
        let mut i: usize = 0;
        while i < glyphs.len()
            invariant
                bytes@.len() == MEMORY_SIZE,
                glyphs@ == font(),
                i <= glyphs@.len(),
                forall|j: int| 0 <= j < i ==> bytes@[j] == font()[j],
                forall|j: int| i <= j < MEMORY_SIZE ==> bytes@[j] == 0,
            decreases glyphs.len() - i,
        {
            bytes.set(i, glyphs[i]);
            i = i + 1;
        }
        let mut g: usize = 0;
        while g < game.len()
            invariant
                bytes@.len() == MEMORY_SIZE,
                game@.len() <= MEMORY_SIZE - PROGRAM_START,
                g <= game@.len(),
                forall|j: int| 0 <= j < font().len() ==> bytes@[j] == font()[j],
                forall|j: int| font().len() <= j < PROGRAM_START ==> bytes@[j] == 0,
                forall|j: int| 0 <= j < g ==> bytes@[PROGRAM_START + j] == game@[j],
                forall|j: int| PROGRAM_START + g <= j < MEMORY_SIZE ==> bytes@[j] == 0,
            decreases game.len() - g,
        {
            bytes.set(PROGRAM_START + g, game[g]);
            g = g + 1;
        }
        Memory { bytes }
    }

    /// Reads the byte at `addr`.
    pub fn read_byte(&self, addr: u16) -> (r: u8)
        requires
            self.wf(),
        ensures
            r == self@[index_of(addr)],
    {
        proof {
            lemma_u16_addr_mask(addr);
        }
        self.bytes[(addr & 0xfff) as usize]
    }

    /// Writes the byte at `addr`.
    pub fn write_byte(&mut self, addr: u16, value: u8)
        requires
            old(self).wf(),
        ensures
            final(self).wf(),
            final(self)@ == old(self)@.update(index_of(addr), value),
    {
        proof {
            lemma_u16_addr_mask(addr);
        }
        self.bytes.set((addr & 0xfff) as usize, value);
    }

    /// Reads the big-endian 16-bit word at `addr`, used for opcode fetch.
    pub fn read_word(&self, addr: u16) -> (r: u16)
        requires
            self.wf(),
        ensures
            r == word_at(self@, addr),
    {
        let hi = self.read_byte(addr);
        let lo = self.read_byte(addr.wrapping_add(1));
        hi as u16 * 256 + lo as u16
    }

    /// The fixed memory offset of the 5-byte glyph sprite for a hexadecimal
    /// digit; only the digit's low four bits select the glyph.
    pub fn glyph_address(digit: u16) -> (r: u16)
        ensures
            r == 5 * (digit & 0xf),
    {
        proof {
            lemma_u16_digit_mask(digit);
        }
        (digit & 0xf) * 5
    }
}

/// The low twelve bits of an address stay below the memory size.
proof fn lemma_u16_addr_mask(addr: u16)
    by (bit_vector)
    ensures
        addr & 0xfff < 4096,
{
}

/// The low four bits of a glyph selector stay below 16.
proof fn lemma_u16_digit_mask(digit: u16)
    by (bit_vector)
    ensures
        digit & 0xf < 16,
{
}

} // verus!
