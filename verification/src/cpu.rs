//! The CHIP-8 processor: register file, instruction decoding, and the
//! fetch-decode-execute loop over the machine's components.
//!
//! The effect of one executed instruction on the whole machine state is
//! captured by the relation [`step_effect`], which mirrors the instruction
//! table: `step` is proved to realize it. The fatal conditions of the
//! machine - an unrecognized opcode, a call on a full stack, a return on an
//! empty one - surface as the `Err` cases of [`Fault`]; a host that wants
//! the hardware behaviour aborts on them.

use vstd::prelude::*;
use crate::display::{Display, Pixel, sprite_hit, sprite_collides, WIDTH, HEIGHT};
use crate::keyboard::{Key, Keyboard, KeyState, has_pressed, is_first_pressed};
use crate::memory::{Memory, MEMORY_SIZE, PROGRAM_START, font, index_of, word_at, wrap16};
use crate::random::Random;
use crate::stack::{Stack, MAX_CAPACITY};
use crate::timer::Timer;

verus! {

/// Number of general-purpose registers.
pub const NUM_REGS: usize = 16;

/// Identifies one of the 16 general-purpose 8-bit registers V0..VF.
#[derive(Clone, Copy)]
pub struct Reg(usize);

impl Reg {
    /// The register's ordinal.
    pub closed spec fn view(&self) -> int {
        self.0 as int
    }

    /// Register ordinals lie in `0..16`.
    pub open spec fn wf(&self) -> bool {
        0 <= self@ < NUM_REGS
    }

    /// The registers `V0` up to but not including `Vn`, in order.
    pub fn up_to(n: usize) -> (r: Vec<Reg>)
        requires
            n <= NUM_REGS,
        ensures
            r@.len() == n,
            forall|i: int| 0 <= i < n ==> (#[trigger] r@[i]).wf() && r@[i]@ == i,
    {
        let mut v: Vec<Reg> = Vec::new();
        let mut i: usize = 0;
        while i < n
            invariant
                n <= NUM_REGS,
                i <= n,
                v@.len() == i,
                forall|j: int| 0 <= j < i ==> (#[trigger] v@[j]).wf() && v@[j]@ == j,
            decreases n - i,
        {
            v.push(Reg(i));
            i = i + 1;
        }
        v
    }

    /// The key with the same ordinal, for the keyboard-testing instructions.
    pub fn into_key(self) -> (k: Key)
        requires
            self.wf(),
        ensures
            k.wf(),
            k@ == self@,
    {
        Key::new(self.0)
    }

    /// The register's ordinal.
    pub fn ordinal(&self) -> (r: usize)
        ensures
            r == self@,
    {
        self.0
    }
}

/// The topmost nibble of an opcode word.
pub open spec fn op1(w: u16) -> u16 {
    (w >> 12) & 15
}

/// The second nibble of an opcode word.
pub open spec fn op2(w: u16) -> u16 {
    (w >> 8) & 15
}

/// The third nibble of an opcode word.
pub open spec fn op3(w: u16) -> u16 {
    (w >> 4) & 15
}

/// The lowest nibble of an opcode word.
pub open spec fn op4(w: u16) -> u16 {
    w & 15
}

/// The 12-bit address embedded in an opcode word.
pub open spec fn addr_of(w: u16) -> u16 {
    w & 0xfff
}

/// The 8-bit immediate embedded in an opcode word.
pub open spec fn arg_of(w: u16) -> u8 {
    (w & 0xff) as u8
}

/// The `x` register selector of an opcode word, bits 8 to 11.
pub open spec fn xsel(w: u16) -> int {
    op2(w) as int
}

/// The `y` register selector of an opcode word, bits 4 to 7.
pub open spec fn ysel(w: u16) -> int {
    op3(w) as int
}

/// A decoded 16-bit opcode, fetched big-endian from memory.
#[derive(Debug)]
pub struct Instr(u16);

impl Instr {
    /// The raw 16-bit opcode word.
    pub closed spec fn view(&self) -> u16 {
        self.0
    }

    /// Wraps a raw 16-bit opcode word.
    pub fn new(value: u16) -> (r: Instr)
        ensures
            r@ == value,
    {
        Instr(value)
    }

    /// The four nibbles of the word, topmost first.
    pub fn nybbles(&self) -> (r: (u8, u8, u8, u8))
        ensures
            r.0 == op1(self@),
            r.1 == op2(self@),
            r.2 == op3(self@),
            r.3 == op4(self@),
    {
        proof {
            lemma_u16_decode(self@);
        }
        let w = self.0;
        (((w >> 12) & 15) as u8, ((w >> 8) & 15) as u8, ((w >> 4) & 15) as u8, (w & 15) as u8)
    }

    /// The embedded 12-bit address.
    pub fn addr(&self) -> (r: u16)
        ensures
            r == addr_of(self@),
    {
        self.0 & 0xfff
    }

    /// The embedded 8-bit immediate.
    pub fn arg(&self) -> (r: u8)
        ensures
            r == arg_of(self@),
    {
        proof {
            lemma_u16_decode(self@);
        }
        (self.0 & 0xff) as u8
    }

    /// The flags register VF.
    pub fn f(&self) -> (r: Reg)
        ensures
            r.wf(),
            r@ == 15,
    {
        Reg(0xf)
    }

    /// The register selected by bits 8 to 11.
    pub fn x(&self) -> (r: Reg)
        ensures
            r.wf(),
            r@ == xsel(self@),
    {
        proof {
            lemma_u16_decode(self@);
        }
        Reg(((self.0 >> 8) & 15) as usize)
    }

    /// The register selected by bits 4 to 7.
    pub fn y(&self) -> (r: Reg)
        ensures
            r.wf(),
            r@ == ysel(self@),
    {
        proof {
            lemma_u16_decode(self@);
        }
        Reg(((self.0 >> 4) & 15) as usize)
    }

    /// The register V0.
    pub fn z(&self) -> (r: Reg)
        ensures
            r.wf(),
            r@ == 0,
    {
        Reg(0)
    }
}

/// The decoded fields of an opcode stay in their ranges.
proof fn lemma_u16_decode(w: u16)
    by (bit_vector)
    ensures
        (w >> 12) & 15 < 16,
        (w >> 8) & 15 < 16,
        (w >> 4) & 15 < 16,
        w & 15 < 16,
        w & 0xfff < 4096,
        w & 0xff < 256,
{
}

/// Splitting a word into its four nibbles, its 12-bit address or its 8-bit
/// immediate loses nothing: each part equals direct masking of the word,
/// and together the nibbles reassemble it.
pub proof fn lemma_decode_round_trip(w: u16)
    by (bit_vector)
    ensures
        (op1(w) << 12) | (op2(w) << 8) | (op3(w) << 4) | op4(w) == w,
        (op2(w) << 8) | (op3(w) << 4) | op4(w) == addr_of(w),
        (op3(w) << 4) | op4(w) == arg_of(w),
        addr_of(w) == w & 0xfff,
        arg_of(w) == (w & 0xff) as u8,
{
}

/// A fatal condition of the machine: a programmer error on the ROM's side
/// with no recovery, on which original hardware behaviour is undefined. The
/// host terminates on them; nothing in the machine handles them.
#[derive(Clone, Copy, Debug, PartialEq, Eq, Structural)]
pub enum Fault {
    /// The fetched word matches no instruction pattern.
    UnrecognizedInstruction(u16),
    /// CALL with 16 return addresses already stacked.
    StackOverflow,
    /// RET with no return address stacked.
    StackUnderflow,
}

/// Everything an instruction can observe or change: the mathematical state
/// of the whole machine. The random source is deliberately absent; nothing
/// is promised about the bytes it yields.
#[verifier::ext_equal]
pub struct MachineView {
    pub pc: u16,
    pub i: u16,
    pub v: Seq<u8>,
    pub mem: Seq<u8>,
    pub stack: Seq<u16>,
    pub display: Display,
    pub keyboard: Keyboard,
    pub timer: Timer,
}

/// Orchestrates the machine: owns the components, decodes and executes one
/// instruction per step, and advances the timers once per batch of steps.
pub struct Cpu {
    pc: u16,
    i: u16,
    v: Vec<u8>,
    memory: Memory,
    random: Random,
    stack: Stack,
    pub display: Display,
    pub keyboard: Keyboard,
    pub timer: Timer,
}

impl View for Cpu {
    type V = MachineView;

    closed spec fn view(&self) -> MachineView {
        MachineView {
            pc: self.pc,
            i: self.i,
            v: self.v@,
            mem: self.memory@,
            stack: self.stack@,
            display: self.display,
            keyboard: self.keyboard,
            timer: self.timer,
        }
    }
}

impl Cpu {
    /// Every component is well-formed and has its fixed size.
    pub closed spec fn wf(&self) -> bool {
        &&& self.v@.len() == NUM_REGS
        &&& self.memory.wf()
        &&& self.stack.wf()
        &&& self.display.wf()
        &&& self.keyboard.wf()
        &&& self.timer.wf()
    }

    /// Creates the machine over a program image: registers cleared, program
    /// counter at the program start, memory loaded with font and program,
    /// display dark, keyboard released, timers at zero, stack empty.
    pub fn new(game: &[u8]) -> (cpu: Cpu)
        requires
            game@.len() <= MEMORY_SIZE - PROGRAM_START,
        ensures
            cpu.wf(),
            cpu@.pc == PROGRAM_START,
            cpu@.i == 0,
            cpu@.v =~= Seq::new(NUM_REGS as nat, |k: int| 0u8),
            cpu@.stack == Seq::<u16>::empty(),
            forall|k: int| 0 <= k < font().len() ==> cpu@.mem[k] == font()[k],
            forall|k: int| font().len() <= k < PROGRAM_START ==> cpu@.mem[k] == 0,
            forall|k: int| 0 <= k < game@.len() ==> cpu@.mem[PROGRAM_START + k] == game@[k],
            forall|k: int| PROGRAM_START + game@.len() <= k < MEMORY_SIZE ==> cpu@.mem[k] == 0,
            forall|x: int, y: int| #[trigger] cpu@.display.pixel_at(x, y) == Pixel::Off,
            forall|k: int| 0 <= k < 16 ==> cpu@.keyboard@[k] is Released,
            cpu@.timer.spec_delay() == 0 && cpu@.timer.spec_sound() == 0
                && !cpu@.timer.spec_independent_sound(),
    {
        let cpu = Cpu {
            pc: 0x200,
            i: 0x000,
            v: vec![0u8; 16],
            display: Display::new(),
            keyboard: Keyboard::new(),
            memory: Memory::new(game),
            random: Random::new(),
            stack: Stack::new(),
            timer: Timer::new(),
        };
        proof {
            assert(cpu@.v =~= Seq::new(NUM_REGS as nat, |k: int| 0u8));
        }
        cpu
    }

    /// The program counter.
    pub fn pc(&self) -> (r: u16)
        ensures
            r == self@.pc,
    {
        self.pc
    }

    /// The index register.
    pub fn index_register(&self) -> (r: u16)
        ensures
            r == self@.i,
    {
        self.i
    }

    /// The memory, for the host to inspect.
    pub fn memory(&self) -> (r: &Memory)
        requires
            self.wf(),
        ensures
            r.wf(),
            r@ == self@.mem,
    {
        &self.memory
    }

    /// Rewinds the program counter by one instruction.
    fn back(&mut self)
        ensures
            final(self)@ =~= (MachineView { pc: wrap16(old(self)@.pc - 2), ..old(self)@ }),
            final(self).wf() == old(self).wf(),
    {
        self.pc = self.pc.wrapping_sub(2)
    }

    /// Advances the program counter by one instruction.
    fn skip(&mut self)
        ensures
            final(self)@ =~= (MachineView { pc: wrap16(old(self)@.pc + 2), ..old(self)@ }),
            final(self).wf() == old(self).wf(),
    {
        self.pc = self.pc.wrapping_add(2)
    }

    /// Fetches the instruction word at the program counter and advances the
    /// counter past it.
    pub fn read_code(&mut self) -> (code: Instr)
        requires
            old(self).wf(),
        ensures
            final(self).wf(),
            code@ == word_at(old(self)@.mem, old(self)@.pc),
            final(self)@ =~= (MachineView { pc: wrap16(old(self)@.pc + 2), ..old(self)@ }),
    {
        let value = self.memory.read_word(self.pc);
        self.skip();
        Instr(value)
    }

    /// Reads a general-purpose register.
    pub fn get(&self, reg: Reg) -> (r: u8)
        requires
            self.wf(),
            reg.wf(),
        ensures
            r == self@.v[reg@],
    {
        self.v[reg.ordinal()]
    }

    /// Writes a general-purpose register.
    pub fn set(&mut self, reg: Reg, value: u8)
        requires
            old(self).wf(),
            reg.wf(),
        ensures
            final(self).wf(),
            final(self)@ =~= (MachineView { v: old(self)@.v.update(reg@, value), ..old(self)@ }),
    {
        self.v.set(reg.ordinal(), value);
    }
}

/// An 8-bit value offset by at most one wrap of the range: the wrapping
/// register arithmetic.
pub open spec fn wrap8(x: int) -> u8 {
    if x > 255 {
        (x - 256) as u8
    } else if x < 0 {
        (x + 256) as u8
    } else {
        x as u8
    }
}

/// The sprite rows the DRW instruction reads: `n` bytes of memory starting
/// at the index register, each paired with its row number.
pub open spec fn sprite_rows(mem: Seq<u8>, i: u16, n: int) -> Seq<(usize, usize)> {
    Seq::new(n as nat, |k: int| (k as usize, mem[index_of(wrap16(i + k))] as usize))
}

/// Memory after the registers `V0` up to but not including `Vk` are stored
/// at consecutive addresses from `i` on, later writes over earlier ones.
pub open spec fn write_run(mem: Seq<u8>, i: u16, v: Seq<u8>, k: int) -> Seq<u8>
    decreases k,
{
    if k <= 0 {
        mem
    } else {
        write_run(mem, i, v, k - 1).update(index_of(wrap16(i + (k - 1))), v[k - 1])
    }
}

/// The register file after `V0` up to and including `Vx` are loaded from
/// consecutive addresses from `i` on.
pub open spec fn load_run(v: Seq<u8>, mem: Seq<u8>, i: u16, x: int) -> Seq<u8> {
    Seq::new(NUM_REGS as nat, |j: int| if j <= x {
        mem[index_of(wrap16(i + j))]
    } else {
        v[j]
    })
}

/// How one executed instruction relates the machine state before it, the
/// state after it, and the reported fault, following the instruction table.
/// The fetch advances the program counter by 2 before dispatch, so a skip
/// is a further advance by 2 and the busy-wait of `Fx0A` is a rewind by 2.
pub open spec fn step_effect(pre: MachineView, post: MachineView, r: Result<(), Fault>) -> bool {
    let w = word_at(pre.mem, pre.pc);
    let a = op1(w);
    let b = op2(w);
    let c = op3(w);
    let d = op4(w);
    let pc2 = wrap16(pre.pc + 2);
    let pc4 = wrap16(pre.pc + 4);
    let x = xsel(w);
    let y = ysel(w);
    let kk = arg_of(w);
    let nnn = addr_of(w);
    let vx = pre.v[x];
    let vy = pre.v[y];
    if a == 0 && b == 0 && c == 0xe && d == 0 {
        // 00E0 - CLS
        &&& r is Ok
        &&& post == MachineView { pc: pc2, display: post.display, ..pre }
        &&& post.display.wf()
        &&& forall|px: int, py: int| #[trigger] post.display.pixel_at(px, py) == Pixel::Off
    } else if a == 0 && b == 0 && c == 0xe && d == 0xe {
        // 00EE - RET
        if pre.stack.len() > 0 {
            &&& r is Ok
            &&& post == MachineView { pc: pre.stack.last(), stack: pre.stack.drop_last(), ..pre }
        } else {
            &&& r == Result::<(), Fault>::Err(Fault::StackUnderflow)
            &&& post == MachineView { pc: pc2, ..pre }
        }
    } else if a == 0 {
        // 0nnn - SYS: a no-op
        &&& r is Ok
        &&& post == MachineView { pc: pc2, ..pre }
    } else if a == 1 {
        // 1nnn - JP addr
        &&& r is Ok
        &&& post == MachineView { pc: nnn, ..pre }
    } else if a == 2 {
        // 2nnn - CALL addr
        if pre.stack.len() < MAX_CAPACITY {
            &&& r is Ok
            &&& post == MachineView { pc: nnn, stack: pre.stack.push(pc2), ..pre }
        } else {
            &&& r == Result::<(), Fault>::Err(Fault::StackOverflow)
            &&& post == MachineView { pc: pc2, ..pre }
        }
    } else if a == 3 {
        // 3xkk - SE Vx, byte
        &&& r is Ok
        &&& post == MachineView { pc: if vx == kk { pc4 } else { pc2 }, ..pre }
    } else if a == 4 {
        // 4xkk - SNE Vx, byte
        &&& r is Ok
        &&& post == MachineView { pc: if vx != kk { pc4 } else { pc2 }, ..pre }
    } else if a == 5 && d == 0 {
        // 5xy0 - SE Vx, Vy
        &&& r is Ok
        &&& post == MachineView { pc: if vx == vy { pc4 } else { pc2 }, ..pre }
    } else if a == 6 {
        // 6xkk - LD Vx, byte
        &&& r is Ok
        &&& post == MachineView { pc: pc2, v: pre.v.update(x, kk), ..pre }
    } else if a == 7 {
        // 7xkk - ADD Vx, byte: wrapping, no flag
        &&& r is Ok
        &&& post == MachineView { pc: pc2, v: pre.v.update(x, wrap8(vx + kk)), ..pre }
    } else if a == 8 && d == 0 {
        // 8xy0 - LD Vx, Vy
        &&& r is Ok
        &&& post == MachineView { pc: pc2, v: pre.v.update(x, vy), ..pre }
    } else if a == 8 && d == 1 {
        // 8xy1 - OR Vx, Vy
        &&& r is Ok
        &&& post == MachineView { pc: pc2, v: pre.v.update(x, vx | vy), ..pre }
    } else if a == 8 && d == 2 {
        // 8xy2 - AND Vx, Vy
        &&& r is Ok
        &&& post == MachineView { pc: pc2, v: pre.v.update(x, vx & vy), ..pre }
    } else if a == 8 && d == 3 {
        // 8xy3 - XOR Vx, Vy
        &&& r is Ok
        &&& post == MachineView { pc: pc2, v: pre.v.update(x, vx ^ vy), ..pre }
    } else if a == 8 && d == 4 {
        // 8xy4 - ADD Vx, Vy: VF reports the carry, then Vx takes the sum
        &&& r is Ok
        &&& post == MachineView {
            pc: pc2,
            v: pre.v.update(15, if vx + vy > 255 { 1u8 } else { 0u8 }).update(x, wrap8(vx + vy)),
            ..pre
        }
    } else if a == 8 && d == 5 {
        // 8xy5 - SUB Vx, Vy: VF reports the borrow
        &&& r is Ok
        &&& post == MachineView {
            pc: pc2,
            v: pre.v.update(15, if vx < vy { 1u8 } else { 0u8 }).update(x, wrap8(vx - vy)),
            ..pre
        }
    } else if a == 8 && d == 6 {
        // 8xy6 - SHR Vx: VF takes the shifted-out bit first, so VF itself
        // shifted (x = 15) reads the freshly written flag
        let v1 = pre.v.update(15, vx & 1);
        &&& r is Ok
        &&& post == MachineView { pc: pc2, v: v1.update(x, v1[x] >> 1), ..pre }
    } else if a == 8 && d == 7 {
        // 8xy7 - SUBN Vx, Vy: Vy - Vx, VF reports the borrow
        &&& r is Ok
        &&& post == MachineView {
            pc: pc2,
            v: pre.v.update(15, if vy < vx { 1u8 } else { 0u8 }).update(x, wrap8(vy - vx)),
            ..pre
        }
    } else if a == 8 && d == 0xe {
        // 8xyE - SHL Vx: VF takes the shifted-out bit first, as in SHR
        let v1 = pre.v.update(15, (vx >> 7) & 1);
        &&& r is Ok
        &&& post == MachineView { pc: pc2, v: v1.update(x, v1[x] << 1), ..pre }
    } else if a == 9 && d == 0 {
        // 9xy0 - SNE Vx, Vy
        &&& r is Ok
        &&& post == MachineView { pc: if vx != vy { pc4 } else { pc2 }, ..pre }
    } else if a == 0xa {
        // Annn - LD I, addr
        &&& r is Ok
        &&& post == MachineView { pc: pc2, i: nnn, ..pre }
    } else if a == 0xb {
        // Bnnn - JP V0, addr: wrapping
        &&& r is Ok
        &&& post == MachineView { pc: wrap16(nnn + pre.v[0]), ..pre }
    } else if a == 0xc {
        // Cxkk - RND Vx, byte: a random byte masked by kk; only the mask is
        // promised of the value
        &&& r is Ok
        &&& post == MachineView { pc: pc2, v: pre.v.update(x, post.v[x]), ..pre }
        &&& post.v[x] & kk == post.v[x]
    } else if a == 0xd {
        // Dxyn - DRW Vx, Vy, n: XOR-draw n sprite rows read from memory at
        // the index register; VF reports whether any lit pixel was hit
        let rows = sprite_rows(pre.mem, pre.i, d as int);
        let hit = sprite_collides(pre.display, rows, vx as int, vy as int);
        &&& r is Ok
        &&& post == MachineView {
            pc: pc2,
            v: pre.v.update(15, if hit { 1u8 } else { 0u8 }),
            display: post.display,
            ..pre
        }
        &&& post.display.wf()
        &&& forall|px: int, py: int|
            0 <= px < WIDTH && 0 <= py < HEIGHT ==> #[trigger] post.display.pixel_at(px, py)
                == pre.display.pixel_at(px, py).spec_flip_if(
                    sprite_hit(rows, vx as int, vy as int, px, py),
                )
    } else if a == 0xe && c == 9 && d == 0xe {
        // Ex9E - SKP Vx: tests the key named by the register selector
        &&& r is Ok
        &&& post == MachineView {
            pc: if pre.keyboard@[x] is Pressed { pc4 } else { pc2 },
            ..pre
        }
    } else if a == 0xe && c == 0xa && d == 1 {
        // ExA1 - SKNP Vx
        &&& r is Ok
        &&& post == MachineView {
            pc: if pre.keyboard@[x] is Pressed { pc2 } else { pc4 },
            ..pre
        }
    } else if a == 0xf && c == 0 && d == 7 {
        // Fx07 - LD Vx, DT
        &&& r is Ok
        &&& post == MachineView { pc: pc2, v: pre.v.update(x, pre.timer.spec_delay() as u8), ..pre }
    } else if a == 0xf && c == 0 && d == 0xa {
        // Fx0A - LD Vx, K: with no key down, rewind and retry next step;
        // else store the first pressed key's ordinal
        if has_pressed(pre.keyboard@) {
            &&& r is Ok
            &&& exists|k: int|
                #[trigger] is_first_pressed(pre.keyboard@, k) && post
                    == MachineView { pc: pc2, v: pre.v.update(x, k as u8), ..pre }
        } else {
            &&& r is Ok
            &&& post == MachineView { pc: pre.pc, ..pre }
        }
    } else if a == 0xf && c == 1 && d == 5 {
        // Fx15 - LD DT, Vx
        &&& r is Ok
        &&& post == MachineView { pc: pc2, timer: post.timer, ..pre }
        &&& post.timer.wf()
        &&& post.timer.spec_delay() == vx
        &&& post.timer.spec_sound() == pre.timer.spec_sound()
        &&& post.timer.spec_independent_sound() == pre.timer.spec_independent_sound()
    } else if a == 0xf && c == 1 && d == 8 {
        // Fx18 - LD ST, Vx
        &&& r is Ok
        &&& post == MachineView { pc: pc2, timer: post.timer, ..pre }
        &&& post.timer.wf()
        &&& post.timer.spec_sound() == vx
        &&& post.timer.spec_delay() == pre.timer.spec_delay()
        &&& post.timer.spec_independent_sound() == pre.timer.spec_independent_sound()
    } else if a == 0xf && c == 1 && d == 0xe {
        // Fx1E - ADD I, Vx: wrapping
        &&& r is Ok
        &&& post == MachineView { pc: pc2, i: wrap16(pre.i + vx), ..pre }
    } else if a == 0xf && c == 2 && d == 9 {
        // Fx29 - LD F, Vx: address of the glyph for the digit in Vx
        &&& r is Ok
        &&& post == MachineView { pc: pc2, i: (5 * ((vx & 0xf) as int)) as u16, ..pre }
    } else if a == 0xf && c == 3 && d == 3 {
        // Fx33 - LD B, Vx: BCD digits of Vx at I, I+1, I+2
        &&& r is Ok
        &&& post == MachineView {
            pc: pc2,
            mem: pre.mem.update(index_of(pre.i), ((vx as int / 100) % 10) as u8).update(
                index_of(wrap16(pre.i + 1)),
                ((vx as int / 10) % 10) as u8,
            ).update(index_of(wrap16(pre.i + 2)), ((vx as int) % 10) as u8),
            ..pre
        }
    } else if a == 0xf && c == 5 && d == 5 {
        // Fx55 - LD [I], Vx: stores V0 through Vx at I on
        &&& r is Ok
        &&& post == MachineView { pc: pc2, mem: write_run(pre.mem, pre.i, pre.v, x + 1), ..pre }
    } else if a == 0xf && c == 6 && d == 5 {
        // Fx65 - LD Vx, [I]: loads V0 through Vx from I on
        &&& r is Ok
        &&& post == MachineView { pc: pc2, v: load_run(pre.v, pre.mem, pre.i, x), ..pre }
    } else {
        // Unrecognized pattern: fatal, with the offending word
        &&& r == Result::<(), Fault>::Err(Fault::UnrecognizedInstruction(w))
        &&& post == MachineView { pc: pc2, ..pre }
    }
}

impl Cpu {
    /// The `n` sprite rows the DRW instruction draws: bytes of memory from
    /// the index register on, each paired with its row number.
    fn read_sprite(&self, n: u8) -> (rows: Vec<(usize, usize)>)
        requires
            self.wf(),
            n <= 15,
        ensures
            rows@ =~= sprite_rows(self@.mem, self@.i, n as int),
    {
        let mut rows: Vec<(usize, usize)> = Vec::new();
        let mut k: usize = 0;
        while k < n as usize
            invariant
                self.wf(),
                k <= n as usize,
                n <= 15,
                rows@.len() == k,
                forall|j: int|
                    0 <= j < k ==> #[trigger] rows@[j] == (
                        j as usize,
                        self@.mem[index_of(wrap16(self@.i + j))] as usize,
                    ),
            decreases n as usize - k,
        {
            let byte = self.memory.read_byte(self.i.wrapping_add(k as u16));
            rows.push((k, byte as usize));
            k = k + 1;
        }
        rows
    }

    /// Fetches, decodes and executes one instruction. The fatal conditions
    /// are reported as faults with the machine otherwise intact, so a host
    /// can abort as the hardware would.
    pub fn step(&mut self) -> (r: Result<(), Fault>)
        requires
            old(self).wf(),
        ensures
            final(self).wf(),
            step_effect(old(self)@, final(self)@, r),
    {
        let ghost pre = old(self)@;
        let code = self.read_code();
        let ghost w = code@;
        proof {
            lemma_u16_decode(w);
        }

        match code.nybbles() {
            // 00E0 - CLS
            (0x0, 0x0, 0xe, 0x0) => {
                self.display.cls();
                proof {
                    assert(self@ =~= (MachineView { pc: wrap16(pre.pc + 2), display: self@.display, ..pre }));
                }
                Ok(())
            }

            // 00EE - RET
            (0x0, 0x0, 0xe, 0xe) => {
                if self.stack.len() > 0 {
                    self.pc = self.stack.pull();
                    proof {
                        assert(self@ =~= (MachineView {
                            pc: pre.stack.last(),
                            stack: pre.stack.drop_last(),
                            ..pre
                        }));
                    }
                    Ok(())
                } else {
                    proof {
                        assert(self@ =~= (MachineView { pc: wrap16(pre.pc + 2), ..pre }));
                    }
                    Err(Fault::StackUnderflow)
                }
            }

            // 0nnn - SYS: a no-op
            (0x0, _, _, _) => {
                proof {
                    assert(self@ =~= (MachineView { pc: wrap16(pre.pc + 2), ..pre }));
                }
                Ok(())
            }

            // 1nnn - JP addr
            (0x1, _, _, _) => {
                self.pc = code.addr();
                proof {
                    assert(self@ =~= (MachineView { pc: addr_of(w), ..pre }));
                }
                Ok(())
            }

            // 2nnn - CALL addr
            (0x2, _, _, _) => {
                if self.stack.len() < MAX_CAPACITY {
                    let ret = self.pc;
                    self.stack.push(ret);
                    self.pc = code.addr();
                    proof {
                        assert(self@ =~= (MachineView {
                            pc: addr_of(w),
                            stack: pre.stack.push(wrap16(pre.pc + 2)),
                            ..pre
                        }));
                    }
                    Ok(())
                } else {
                    proof {
                        assert(self@ =~= (MachineView { pc: wrap16(pre.pc + 2), ..pre }));
                    }
                    Err(Fault::StackOverflow)
                }
            }

            // 3xkk - SE Vx, byte
            (0x3, _, _, _) => {
                if self.get(code.x()) == code.arg() {
                    self.skip();
                }
                proof {
                    assert(wrap16(wrap16(pre.pc + 2) + 2) == wrap16(pre.pc + 4));
                }
                Ok(())
            }

            // 4xkk - SNE Vx, byte
            (0x4, _, _, _) => {
                if self.get(code.x()) != code.arg() {
                    self.skip();
                }
                proof {
                    assert(wrap16(wrap16(pre.pc + 2) + 2) == wrap16(pre.pc + 4));
                }
                Ok(())
            }

            // 5xy0 - SE Vx, Vy
            (0x5, _, _, 0x0) => {
                if self.get(code.x()) == self.get(code.y()) {
                    self.skip();
                }
                proof {
                    assert(wrap16(wrap16(pre.pc + 2) + 2) == wrap16(pre.pc + 4));
                }
                Ok(())
            }

            // 6xkk - LD Vx, byte
            (0x6, _, _, _) => {
                self.set(code.x(), code.arg());
                Ok(())
            }

            // 7xkk - ADD Vx, byte
            (0x7, _, _, _) => {
                let vx = self.get(code.x());
                let sum = vx as u16 + code.arg() as u16;
                let value = if sum > 255 {
                    (sum - 256) as u8
                } else {
                    sum as u8
                };
                self.set(code.x(), value);
                Ok(())
            }

            // 8xy0 - LD Vx, Vy
            (0x8, _, _, 0x0) => {
                let vy = self.get(code.y());
                self.set(code.x(), vy);
                Ok(())
            }

            // 8xy1 - OR Vx, Vy
            (0x8, _, _, 0x1) => {
                let value = self.get(code.x()) | self.get(code.y());
                self.set(code.x(), value);
                Ok(())
            }

            // 8xy2 - AND Vx, Vy
            (0x8, _, _, 0x2) => {
                let value = self.get(code.x()) & self.get(code.y());
                self.set(code.x(), value);
                Ok(())
            }

            // 8xy3 - XOR Vx, Vy
            (0x8, _, _, 0x3) => {
                let value = self.get(code.x()) ^ self.get(code.y());
                self.set(code.x(), value);
                Ok(())
            }

            // 8xy4 - ADD Vx, Vy
            (0x8, _, _, 0x4) => {
                let vx = self.get(code.x());
                let vy = self.get(code.y());
                let sum = vx as u16 + vy as u16;
                let carry: u8 = if sum > 255 {
                    1
                } else {
                    0
                };
                let value = if sum > 255 {
                    (sum - 256) as u8
                } else {
                    sum as u8
                };
                self.set(code.f(), carry);
                self.set(code.x(), value);
                Ok(())
            }

            // 8xy5 - SUB Vx, Vy
            (0x8, _, _, 0x5) => {
                let vx = self.get(code.x());
                let vy = self.get(code.y());
                let borrow: u8 = if vx < vy {
                    1
                } else {
                    0
                };
                let value = if vx < vy {
                    (256 + vx as u16 - vy as u16) as u8
                } else {
                    vx - vy
                };
                self.set(code.f(), borrow);
                self.set(code.x(), value);
                Ok(())
            }

            // 8xy6 - SHR Vx {, Vy}
            (0x8, _, _, 0x6) => {
                let low = self.get(code.x()) & 1;
                self.set(code.f(), low);
                let t = self.get(code.x());
                self.set(code.x(), t >> 1u8);
                Ok(())
            }

            // 8xy7 - SUBN Vx, Vy
            (0x8, _, _, 0x7) => {
                let vx = self.get(code.x());
                let vy = self.get(code.y());
                let borrow: u8 = if vy < vx {
                    1
                } else {
                    0
                };
                let value = if vy < vx {
                    (256 + vy as u16 - vx as u16) as u8
                } else {
                    vy - vx
                };
                self.set(code.f(), borrow);
                self.set(code.x(), value);
                Ok(())
            }

            // 8xyE - SHL Vx {, Vy}
            (0x8, _, _, 0xe) => {
                let high = (self.get(code.x()) >> 7u8) & 1;
                self.set(code.f(), high);
                let t = self.get(code.x());
                self.set(code.x(), t << 1u8);
                Ok(())
            }

            // 9xy0 - SNE Vx, Vy
            (0x9, _, _, 0x0) => {
                if self.get(code.x()) != self.get(code.y()) {
                    self.skip();
                }
                proof {
                    assert(wrap16(wrap16(pre.pc + 2) + 2) == wrap16(pre.pc + 4));
                }
                Ok(())
            }

            // Annn - LD I, addr
            (0xa, _, _, _) => {
                self.i = code.addr();
                proof {
                    assert(self@ =~= (MachineView { pc: wrap16(pre.pc + 2), i: addr_of(w), ..pre }));
                }
                Ok(())
            }

            // Bnnn - JP V0, addr
            (0xb, _, _, _) => {
                let v0 = self.get(code.z());
                self.pc = code.addr().wrapping_add(v0 as u16);
                proof {
                    assert(self@ =~= (MachineView { pc: wrap16(addr_of(w) + pre.v[0]), ..pre }));
                }
                Ok(())
            }

            // Cxkk - RND Vx, byte
            (0xc, _, _, _) => {
                let val = self.random.next(code.arg());
                self.set(code.x(), val);
                proof {
                    assert(self@.v[xsel(w)] == val);
                }
                Ok(())
            }

            // Dxyn - DRW Vx, Vy, nibble
            (0xd, _, _, n) => {
                let sprite = self.read_sprite(n);
                let vx = self.get(code.x()) as usize;
                let vy = self.get(code.y()) as usize;
                let collision = self.display.drw(vx, vy, sprite.as_slice());
                let flag: u8 = if collision {
                    1
                } else {
                    0
                };
                self.set(code.f(), flag);
                proof {
                    let rows = sprite_rows(pre.mem, pre.i, op4(w) as int);
                    assert(sprite@ =~= rows);
                    assert(self@ =~= (MachineView {
                        pc: wrap16(pre.pc + 2),
                        v: pre.v.update(15, flag),
                        display: self@.display,
                        ..pre
                    }));
                }
                Ok(())
            }

            // Ex9E - SKP Vx
            (0xe, _, 0x9, 0xe) => {
                let key = code.x().into_key();
                if self.keyboard.key_state(key).is_pressed() {
                    self.skip();
                }
                proof {
                    assert(wrap16(wrap16(pre.pc + 2) + 2) == wrap16(pre.pc + 4));
                }
                Ok(())
            }

            // ExA1 - SKNP Vx
            (0xe, _, 0xa, 0x1) => {
                let key = code.x().into_key();
                if !self.keyboard.key_state(key).is_pressed() {
                    self.skip();
                }
                proof {
                    assert(wrap16(wrap16(pre.pc + 2) + 2) == wrap16(pre.pc + 4));
                }
                Ok(())
            }

            // Fx07 - LD Vx, DT
            (0xf, _, 0x0, 0x7) => {
                let d = self.timer.delay();
                self.set(code.x(), d as u8);
                Ok(())
            }

            // Fx0A - LD Vx, K: busy-wait for a key
            (0xf, _, 0x0, 0xa) => {
                match self.keyboard.first_pressed_key() {
                    Some(key) => {
                        let ord = key.ordinal();
                        self.set(code.x(), ord);
                        proof {
                            assert(is_first_pressed(pre.keyboard@, key@));
                            assert(has_pressed(pre.keyboard@));
                            assert(self@ == (MachineView {
                                pc: wrap16(pre.pc + 2),
                                v: pre.v.update(xsel(w), key@ as u8),
                                ..pre
                            }));
                        }
                    }
                    None => {
                        self.back();
                        proof {
                            assert(!has_pressed(pre.keyboard@)) by {
                                if has_pressed(pre.keyboard@) {
                                    let k = choose|k: int|
                                        0 <= k < 16 && pre.keyboard@[k] is Pressed;
                                    assert(pre.keyboard@[k] is Released);
                                }
                            }
                            assert(wrap16(wrap16(pre.pc + 2) - 2) == pre.pc);
                            assert(self@ =~= (MachineView { pc: pre.pc, ..pre }));
                        }
                    }
                }
                Ok(())
            }

            // Fx15 - LD DT, Vx
            (0xf, _, 0x1, 0x5) => {
                let vx = self.get(code.x());
                self.timer.set_delay(vx as i32);
                proof {
                    assert(self@ =~= (MachineView { pc: wrap16(pre.pc + 2), timer: self@.timer, ..pre }));
                }
                Ok(())
            }

            // Fx18 - LD ST, Vx
            (0xf, _, 0x1, 0x8) => {
                let vx = self.get(code.x());
                self.timer.set_sound(vx as i32);
                proof {
                    assert(self@ =~= (MachineView { pc: wrap16(pre.pc + 2), timer: self@.timer, ..pre }));
                }
                Ok(())
            }

            // Fx1E - ADD I, Vx
            (0xf, _, 0x1, 0xe) => {
                let vx = self.get(code.x());
                self.i = self.i.wrapping_add(vx as u16);
                proof {
                    assert(self@ =~= (MachineView { pc: wrap16(pre.pc + 2), i: wrap16(pre.i + pre.v[xsel(w)]), ..pre }));
                }
                Ok(())
            }

            // Fx29 - LD F, Vx
            (0xf, _, 0x2, 0x9) => {
                let vx = self.get(code.x());
                self.i = Memory::glyph_address(vx as u16);
                proof {
                    assert(((vx as u16) & 0xf) == (vx & 0xf) as u16) by (bit_vector);
                    assert(self@ =~= (MachineView {
                        pc: wrap16(pre.pc + 2),
                        i: (5 * ((pre.v[xsel(w)] & 0xf) as int)) as u16,
                        ..pre
                    }));
                }
                Ok(())
            }

            // Fx33 - LD B, Vx
            (0xf, _, 0x3, 0x3) => {
                let vx = self.get(code.x());
                let base = self.i;
                self.memory.write_byte(base, (vx / 100) % 10);
                self.memory.write_byte(base.wrapping_add(1), (vx / 10) % 10);
                self.memory.write_byte(base.wrapping_add(2), (vx / 1) % 10);
                Ok(())
            }

            // Fx55 - LD [I], Vx: stores V0 through Vx
            (0xf, len, 0x5, 0x5) => {
                let count = len as usize + 1;
                let mut k: usize = 0;
                while k < count
                    invariant
                        self.wf(),
                        count == xsel(w) + 1,
                        count <= NUM_REGS,
                        k <= count,
                        self@ == (MachineView {
                            pc: wrap16(pre.pc + 2),
                            mem: write_run(pre.mem, pre.i, pre.v, k as int),
                            ..pre
                        }),
                    decreases count - k,
                {
                    let value = self.get(Reg(k));
                    let addr = self.i.wrapping_add(k as u16);
                    self.memory.write_byte(addr, value);
                    k = k + 1;
                }
                Ok(())
            }

            // Fx65 - LD Vx, [I]: loads V0 through Vx
            (0xf, len, 0x6, 0x5) => {
                let count = len as usize + 1;
                let mut k: usize = 0;
                while k < count
                    invariant
                        self.wf(),
                        count == xsel(w) + 1,
                        count <= NUM_REGS,
                        k <= count,
                        self@ == (MachineView {
                            pc: wrap16(pre.pc + 2),
                            v: Seq::new(NUM_REGS as nat, |j: int| if j < k {
                                pre.mem[index_of(wrap16(pre.i + j))]
                            } else {
                                pre.v[j]
                            }),
                            ..pre
                        }),
                    decreases count - k,
                {
                    let byte = self.memory.read_byte(self.i.wrapping_add(k as u16));
                    self.set(Reg(k), byte);
                    proof {
                        assert(self@.v =~= Seq::new(NUM_REGS as nat, |j: int| if j < k + 1 {
                            pre.mem[index_of(wrap16(pre.i + j))]
                        } else {
                            pre.v[j]
                        }));
                    }
                    k = k + 1;
                }
                proof {
                    assert(self@.v =~= load_run(pre.v, pre.mem, pre.i, xsel(w)));
                }
                Ok(())
            }

            _ => {
                proof {
                    assert(self@ =~= (MachineView { pc: wrap16(pre.pc + 2), ..pre }));
                }
                Err(Fault::UnrecognizedInstruction(code.0))
            }
        }
    }
}

/// Adding an immediate to a register wraps modulo 256 for every pair of
/// operands, so the ADD Vx,byte instruction has a result - and no carry
/// flag - whatever the operand sizes.
pub proof fn lemma_register_add_wraps(vx: u8, kk: u8)
    ensures
        wrap8(vx + kk) == (vx + kk) % 256,
        0 <= wrap8(vx + kk) < 256,
{
    if vx + kk > 255 {
        vstd::arithmetic::div_mod::lemma_mod_add_multiples_vanish(vx + kk - 256, 256);
        vstd::arithmetic::div_mod::lemma_small_mod((vx + kk - 256) as nat, 256);
    } else {
        vstd::arithmetic::div_mod::lemma_small_mod((vx + kk) as nat, 256);
    }
}

/// The machine goes from `pre` to `post` by `k` fault-free instruction
/// steps (none at all when `k` is not positive).
pub open spec fn runs(pre: MachineView, post: MachineView, k: int) -> bool
    decreases k,
{
    if k <= 0 {
        post == pre
    } else {
        exists|mid: MachineView|
            #[trigger] step_effect(pre, mid, Result::<(), Fault>::Ok(())) && runs(mid, post, k - 1)
    }
}

/// A run extends by one more fault-free step at its end.
pub proof fn lemma_runs_snoc(pre: MachineView, mid: MachineView, post: MachineView, k: int)
    requires
        k >= 0,
        runs(pre, mid, k),
        step_effect(mid, post, Result::<(), Fault>::Ok(())),
    ensures
        runs(pre, post, k + 1),
    decreases k,
{
    if k <= 0 {
        assert(step_effect(pre, post, Result::<(), Fault>::Ok(())));
        assert(runs(post, post, 0));
    } else {
        let m1 = choose|m1: MachineView|
            #[trigger] step_effect(pre, m1, Result::<(), Fault>::Ok(())) && runs(m1, mid, k - 1);
        lemma_runs_snoc(m1, mid, post, k - 1);
    }
}

/// How one call of `Timer::update` relates the timers before and after.
pub open spec fn timer_ticked(pre: Timer, post: Timer) -> bool {
    &&& post.wf()
    &&& post.spec_delay() == Timer::spec_tick(pre.spec_delay())
    &&& post.spec_sound() == if pre.spec_independent_sound() {
        Timer::spec_tick(pre.spec_sound())
    } else {
        Timer::spec_tick(pre.spec_delay())
    }
    &&& post.spec_independent_sound() == pre.spec_independent_sound()
}

impl Cpu {
    /// Executes `n` instructions, then advances the timers once: one host
    /// video frame. On a fault the run stops at the faulting instruction,
    /// before the timers advance, and the fault is handed up.
    pub fn step_for(&mut self, n: i32) -> (r: Result<(), Fault>)
        requires
            old(self).wf(),
        ensures
            final(self).wf(),
            r is Ok ==> exists|m: MachineView|
                #[trigger] runs(old(self)@, m, n as int) && final(self)@ == (MachineView {
                    timer: final(self)@.timer,
                    ..m
                }) && timer_ticked(m.timer, final(self)@.timer),
            r is Err ==> exists|k: int, m: MachineView|
                0 <= k < n && #[trigger] runs(old(self)@, m, k) && step_effect(m, final(self)@, r),
    {
        let ghost pre = old(self)@;
        let bound: i32 = if n > 0 {
            n
        } else {
            0
        };
        let mut idx: i32 = 0;
        while idx < bound
            invariant
                self.wf(),
                pre == old(self)@,
                0 <= idx <= bound,
                bound == if n > 0 { n as int } else { 0 },
                runs(pre, self@, idx as int),
            decreases bound - idx,
        {
            let ghost before = self@;
            let res = self.step();
            match res {
                Ok(()) => {
                    proof {
                        lemma_runs_snoc(pre, before, self@, idx as int);
                    }
                }
                Err(e) => {
                    proof {
                        assert(0 <= (idx as int) < n);
                        assert(runs(old(self)@, before, idx as int));
                        assert(step_effect(before, self@, Result::<(), Fault>::Err(e)));
                    }
                    return Err(e);
                }
            }
            idx = idx + 1;
        }
        let ghost m = self@;
        self.timer.update();
        proof {
            assert(runs(pre, m, n as int));
            assert(final(self)@ == (MachineView { timer: final(self)@.timer, ..m }));
            assert(timer_ticked(m.timer, final(self)@.timer));
        }
        Ok(())
    }
}

} // verus!
