use vstd::prelude::*;

use crate::display::{blank, collides, drawn, Display};
use crate::instruction::{decode, decoded, Instruction};
use crate::memory::{initial_memory, AccessError, Memory, MAX_MEM_SIZE, PROGRAM_START};

verus! {

/// The deepest the call stack may grow.
pub const STACK_SIZE: usize = 16;

/// The number of general-purpose registers, V0 to VF.
pub const NUM_REGISTERS: usize = 16;

/// The number of keys on the keypad.
pub const NUM_KEYS: u8 = 16;

/// The register that carries the carry, borrow and collision flags.
pub const FLAG: usize = 0xF;

/// The bytes in one font glyph.
pub const GLYPH_SIZE: u16 = 5;

/// What can stop a step of the machine.
#[derive(Debug, Clone, Copy, PartialEq, Eq, Structural)]
pub enum Chip8Error {
    /// A memory access outside [0, 4095].
    AddressOutOfRange,
    /// A call with 16 return addresses already on the stack.
    StackOverflow,
    /// A return with an empty stack.
    StackUnderflow,
    /// The word (first) at the address (second) encodes no instruction.
    UnknownOpcode(u16, u16),
}

/// The machine as a mathematical value.
pub struct ChipState {
    pub pc: u16,
    pub index: u16,
    pub v: Seq<u8>,
    pub stack: Seq<u16>,
    pub delay: u8,
    pub sound: u8,
    pub keys: u16,
    /// The register that a pending key wait will fill.
    pub waiting: Option<u8>,
    pub memory: Seq<u8>,
    pub screen: Seq<bool>,
}

impl ChipState {
    /// Sizes are fixed, the stack is bounded, and a pending key wait names a
    /// register and stands at a fetchable address.
    pub open spec fn wf(self) -> bool {
        &&& self.v.len() == NUM_REGISTERS
        &&& self.stack.len() <= STACK_SIZE
        &&& self.memory.len() == MAX_MEM_SIZE
        &&& self.screen.len() == crate::display::SCREEN_SIZE
        &&& self.waiting matches Some(x) ==> x < 16 && self.pc + 1 < MAX_MEM_SIZE
    }

    /// The same state with register `x` set to `val`.
    pub open spec fn with_reg(self, x: u8, val: u8) -> ChipState {
        ChipState { v: self.v.update(x as int, val), ..self }
    }

    /// The same state with `pc` moved to `pc`.
    pub open spec fn at(self, pc: int) -> ChipState {
        ChipState { pc: pc as u16, ..self }
    }

    /// The address of the next instruction.
    pub open spec fn next_pc(self) -> int {
        self.pc + 2
    }

    /// The address after the next instruction.
    pub open spec fn skip_pc(self) -> int {
        self.pc + 4
    }

    /// The same state with memory `m`.
    pub open spec fn with_memory(self, m: Seq<u8>) -> ChipState {
        ChipState { memory: m, ..self }
    }

    /// `pc` moved past the next instruction when `cond` holds, else to it.
    pub open spec fn skip_if(self, cond: bool) -> ChipState {
        self.at(if cond { self.skip_pc() } else { self.next_pc() })
    }

    /// Register `x` set to `val`, then the flag register to `flag`, and
    /// `pc` on to the next instruction.
    pub open spec fn with_flag(self, x: u8, val: u8, flag: bool) -> ChipState {
        self.with_reg(x, val).with_reg(FLAG as u8, if flag { 1u8 } else { 0u8 }).at(
            self.next_pc(),
        )
    }
}

/// Whether key `k` is down in the bitmap `keys` (bit k for key k).
pub open spec fn key_pressed(keys: u16, k: int) -> bool {
    0 <= k < NUM_KEYS && (keys >> (k as u16)) & 1u16 == 1u16
}

/// The lowest key from `k` on that is down, or 16 when there is none.
pub open spec fn first_key_from(keys: u16, k: int) -> int
    decreases NUM_KEYS - k,
{
    if k >= NUM_KEYS || k < 0 {
        NUM_KEYS as int
    } else if key_pressed(keys, k) {
        k
    } else {
        first_key_from(keys, k + 1)
    }
}

/// The lowest key that is down, or 16 when there is none.
pub open spec fn first_key(keys: u16) -> int {
    first_key_from(keys, 0)
}

/// The word made of the two bytes at `pc`, high byte first.
pub open spec fn opcode_at(memory: Seq<u8>, pc: int) -> u16 {
    (memory[pc] as int * 256 + memory[pc + 1] as int) as u16
}

/// Addresses [start, start + len) all lie in memory.
pub open spec fn block_in_range(start: int, len: int) -> bool {
    start + len <= MAX_MEM_SIZE
}

/// The effect of executing `ins` in state `s`; `rnd` is the random byte
/// that Cxkk draws.
pub open spec fn executed(s: ChipState, ins: Instruction, rnd: u8) -> Result<ChipState, Chip8Error> {
    let vx = |x: u8| s.v[x as int];
    match ins {
        Instruction::Clear => Ok(ChipState { screen: blank(), ..s }.at(s.next_pc())),
        Instruction::Return => if s.stack.len() == 0 {
            Err(Chip8Error::StackUnderflow)
        } else {
            Ok(ChipState { stack: s.stack.drop_last(), ..s }.at(s.stack.last() as int))
        },
        Instruction::Jump(nnn) => Ok(s.at(nnn as int)),
        Instruction::Call(nnn) => if s.stack.len() >= STACK_SIZE {
            Err(Chip8Error::StackOverflow)
        } else {
            Ok(ChipState { stack: s.stack.push(s.next_pc() as u16), ..s }.at(nnn as int))
        },
        Instruction::SkipEqImm(x, kk) => Ok(s.skip_if(vx(x) == kk)),
        Instruction::SkipNeImm(x, kk) => Ok(s.skip_if(vx(x) != kk)),
        Instruction::SkipEqReg(x, y) => Ok(s.skip_if(vx(x) == vx(y))),
        Instruction::SkipNeReg(x, y) => Ok(s.skip_if(vx(x) != vx(y))),
        Instruction::LoadImm(x, kk) => Ok(s.with_reg(x, kk).at(s.next_pc())),
        Instruction::AddImm(x, kk) => Ok(
            s.with_reg(x, ((vx(x) + kk) % 256) as u8).at(s.next_pc()),
        ),
        Instruction::Move(x, y) => Ok(s.with_reg(x, vx(y)).at(s.next_pc())),
        Instruction::Or(x, y) => Ok(s.with_reg(x, vx(x) | vx(y)).at(s.next_pc())),
        Instruction::And(x, y) => Ok(s.with_reg(x, vx(x) & vx(y)).at(s.next_pc())),
        Instruction::Xor(x, y) => Ok(s.with_reg(x, vx(x) ^ vx(y)).at(s.next_pc())),
        Instruction::AddReg(x, y) => Ok(
            s.with_flag(x, ((vx(x) + vx(y)) % 256) as u8, vx(x) + vx(y) > 255),
        ),
        Instruction::SubReg(x, y) => Ok(
            s.with_flag(x, ((vx(x) - vx(y) + 256) % 256) as u8, vx(x) >= vx(y)),
        ),
        Instruction::SubNeg(x, y) => Ok(
            s.with_flag(x, ((vx(y) - vx(x) + 256) % 256) as u8, vx(y) >= vx(x)),
        ),
        Instruction::ShiftRight(x) => Ok(s.with_flag(x, vx(x) / 2, vx(x) % 2 == 1)),
        Instruction::ShiftLeft(x) => Ok(
            s.with_flag(x, ((vx(x) * 2) % 256) as u8, vx(x) >= 128),
        ),
        Instruction::LoadIndex(nnn) => Ok(ChipState { index: nnn, ..s }.at(s.next_pc())),
        Instruction::JumpOffset(nnn) => Ok(s.at(nnn + s.v[0])),
        Instruction::Random(x, kk) => Ok(s.with_reg(x, rnd & kk).at(s.next_pc())),
        Instruction::Draw(x, y, n) => if !block_in_range(s.index as int, n as int) {
            Err(Chip8Error::AddressOutOfRange)
        } else {
            let sprite = s.memory.subrange(s.index as int, s.index + n);
            let screen = drawn(s.screen, vx(x) as int, vx(y) as int, sprite);
            let hit = collides(s.screen, vx(x) as int, vx(y) as int, sprite);
            Ok(
                ChipState { screen, ..s }.with_reg(FLAG as u8, if hit { 1u8 } else { 0u8 }).at(
                    s.next_pc(),
                ),
            )
        },
        Instruction::SkipKey(x) => Ok(s.skip_if(key_pressed(s.keys, vx(x) as int))),
        Instruction::SkipNoKey(x) => Ok(s.skip_if(!key_pressed(s.keys, vx(x) as int))),
        Instruction::ReadDelay(x) => Ok(s.with_reg(x, s.delay).at(s.next_pc())),
        Instruction::WaitKey(x) => Ok(ChipState { waiting: Some(x), ..s }),
        Instruction::SetDelay(x) => Ok(ChipState { delay: vx(x), ..s }.at(s.next_pc())),
        Instruction::SetSound(x) => Ok(ChipState { sound: vx(x), ..s }.at(s.next_pc())),
        Instruction::AddIndex(x) => Ok(
            ChipState { index: ((s.index + vx(x)) % 0x10000) as u16, ..s }.at(s.next_pc()),
        ),
        Instruction::FontChar(x) => Ok(
            ChipState { index: ((vx(x) % 16) * 5) as u16, ..s }.at(s.next_pc()),
        ),
        Instruction::StoreBcd(x) => if !block_in_range(s.index as int, 3) {
            Err(Chip8Error::AddressOutOfRange)
        } else {
            let i = s.index as int;
            let memory = s.memory.update(i, vx(x) / 100).update(i + 1, (vx(x) / 10) % 10).update(
                i + 2,
                vx(x) % 10,
            );
            Ok(ChipState { memory, ..s }.at(s.next_pc()))
        },
        Instruction::StoreRegs(x) => if !block_in_range(s.index as int, x + 1) {
            Err(Chip8Error::AddressOutOfRange)
        } else {
            let i = s.index as int;
            let memory = Seq::new(
                s.memory.len(),
                |a: int|
                    if i <= a <= i + x {
                        s.v[a - i]
                    } else {
                        s.memory[a]
                    },
            );
            Ok(ChipState { memory, ..s }.at(s.next_pc()))
        },
        Instruction::LoadRegs(x) => if !block_in_range(s.index as int, x + 1) {
            Err(Chip8Error::AddressOutOfRange)
        } else {
            let i = s.index as int;
            let v = Seq::new(
                s.v.len(),
                |r: int|
                    if r <= x {
                        s.memory[i + r]
                    } else {
                        s.v[r]
                    },
            );
            Ok(ChipState { v, ..s }.at(s.next_pc()))
        },
    }
}

/// The effect of one step in state `s`: finish a pending key wait if a key
/// is down (the lowest one), or else fetch, decode and execute.
pub open spec fn stepped(s: ChipState, rnd: u8) -> Result<ChipState, Chip8Error> {
    match s.waiting {
        Some(x) => if first_key(s.keys) < NUM_KEYS {
            Ok(ChipState { waiting: None, ..s }.with_reg(x, first_key(s.keys) as u8).at(s.next_pc()))
        } else {
            Ok(s)
        },
        None => if s.pc + 1 >= MAX_MEM_SIZE {
            Err(Chip8Error::AddressOutOfRange)
        } else {
            let op = opcode_at(s.memory, s.pc as int);
            match decoded(op) {
                Some(ins) => executed(s, ins, rnd),
                None => Err(Chip8Error::UnknownOpcode(op, s.pc)),
            }
        },
    }
}

/// `post` and `r` are what `out` prescribes for an operation started in
/// `pre`: the new state on success, and on failure the error with nothing
/// changed.
pub open spec fn follows(
    pre: ChipState,
    post: ChipState,
    r: Result<(), Chip8Error>,
    out: Result<ChipState, Chip8Error>,
) -> bool {
    match out {
        Ok(t) => r is Ok && post == t,
        Err(e) => r == Err::<(), Chip8Error>(e) && post == pre,
    }
}

/// The state of a freshly built machine.
pub open spec fn initial_state() -> ChipState {
    ChipState {
        pc: PROGRAM_START as u16,
        index: 0,
        v: Seq::new(NUM_REGISTERS as nat, |i: int| 0u8),
        stack: Seq::empty(),
        delay: 0,
        sound: 0,
        keys: 0,
        waiting: None,
        memory: initial_memory(),
        screen: blank(),
    }
}

/// A CHIP-8 machine: registers, stack, timers, keypad, memory and screen.
pub struct CHIP8 {
    /// The address of the next instruction.
    pc: u16,
    /// The index register, a memory address.
    ix: u16,
    /// The keypad, one bit per key.
    keypad: u16,
    /// Return addresses, innermost last.
    stack: Vec<u16>,
    /// The registers V0 to VF.
    vx: Vec<u8>,
    memory: Memory,
    display: Display,
    delay_timer: u8,
    sound_timer: u8,
    /// The register that a pending Fx0A fills, while it waits.
    waiting_key: Option<u8>,
}

impl View for CHIP8 {
    type V = ChipState;

    closed spec fn view(&self) -> ChipState {
        ChipState {
            pc: self.pc,
            index: self.ix,
            v: self.vx@,
            stack: self.stack@,
            delay: self.delay_timer,
            sound: self.sound_timer,
            keys: self.keypad,
            waiting: self.waiting_key,
            memory: self.memory@,
            screen: self.display@,
        }
    }
}

impl CHIP8 {
    pub open spec fn wf(&self) -> bool {
        self@.wf()
    }

    /// A machine with zeroed registers, an empty stack, the font in memory,
    /// a blank screen, and `pc` at the start of the program area.
    pub fn new() -> (r: Self)
        ensures
            r.wf(),
            r@ == initial_state(),
    {
        let r = CHIP8 {
            pc: PROGRAM_START as u16,
            ix: 0,
            keypad: 0,
            stack: Vec::new(),
            vx: vec![0u8; NUM_REGISTERS],
            memory: Memory::new(),
            display: Display::new(),
            delay_timer: 0,
            sound_timer: 0,
            waiting_key: None,
        };
        assert(r@.v =~= initial_state().v);
        assert(r@.stack =~= initial_state().stack);
        r
    }
}

/// `mem` with `data` copied in from the program start on.
pub open spec fn loaded(mem: Seq<u8>, data: Seq<u8>) -> Seq<u8> {
    Seq::new(
        mem.len(),
        |a: int|
            if PROGRAM_START <= a < PROGRAM_START + data.len() {
                data[a - PROGRAM_START]
            } else {
                mem[a]
            },
    )
}

/// The error of the machine for a failed memory access.
fn access_error(e: AccessError) -> (r: Chip8Error)
    ensures
        r == Chip8Error::AddressOutOfRange,
{
    match e {
        AccessError::AddressOutOfRange => Chip8Error::AddressOutOfRange,
    }
}

impl CHIP8 {
    /// Copies `data` into memory from the program start (0x200) on. A
    /// program that would reach past the last address is refused, and
    /// nothing changes.
    pub fn load(&mut self, data: &[u8]) -> (r: Result<(), Chip8Error>)
        requires
            old(self).wf(),
        ensures
            final(self).wf(),
            PROGRAM_START + data@.len() <= MAX_MEM_SIZE ==> r is Ok && final(self)@
                == old(self)@.with_memory(loaded(old(self)@.memory, data@)),
            PROGRAM_START + data@.len() > MAX_MEM_SIZE ==> r == Err::<(), Chip8Error>(
                Chip8Error::AddressOutOfRange,
            ) && final(self)@ == old(self)@,
    {
        if data.len() > MAX_MEM_SIZE - PROGRAM_START {
            return Err(Chip8Error::AddressOutOfRange);
        }
        let ghost pre = self@;
        assert(pre.memory =~= loaded(pre.memory, data@.take(0)));
        let mut i: usize = 0;
        while i < data.len()
            invariant
                self.wf(),
                i <= data@.len(),
                PROGRAM_START + data@.len() <= MAX_MEM_SIZE,
                self@ == pre.with_memory(loaded(pre.memory, data@.take(i as int))),
            decreases data@.len() - i,
        {
            let written = self.memory.write((PROGRAM_START + i) as u16, data[i]);
            assert(written is Ok);
            assert(self@.memory =~= loaded(pre.memory, data@.take(i + 1)));
            i = i + 1;
        }
        assert(data@.take(i as int) =~= data@);
        Ok(())
    }

    /// The instruction word at `pc`, high byte first; an error when `pc` or
    /// `pc + 1` lies outside memory.
    pub fn fetch_opcode(&self) -> (r: Result<u16, Chip8Error>)
        requires
            self.wf(),
        ensures
            self@.pc + 1 < MAX_MEM_SIZE ==> r == Ok::<u16, Chip8Error>(
                opcode_at(self@.memory, self@.pc as int),
            ),
            self@.pc + 1 >= MAX_MEM_SIZE ==> r == Err::<u16, Chip8Error>(
                Chip8Error::AddressOutOfRange,
            ),
    {
        if self.pc as usize + 1 >= MAX_MEM_SIZE {
            return Err(Chip8Error::AddressOutOfRange);
        }
        let hi = match self.memory.read(self.pc) {
            Ok(b) => b,
            Err(e) => return Err(access_error(e)),
        };
        let lo = match self.memory.read(self.pc + 1) {
            Ok(b) => b,
            Err(e) => return Err(access_error(e)),
        };
        let op = (hi as u16) << 8 | lo as u16;
        assert((hi as u16) << 8u16 | lo as u16 == (hi as int * 256 + lo as int) as u16)
            by (bit_vector);
        Ok(op)
    }
}

impl CHIP8 {
    /// Sets register `x` to `val`.
    fn set_reg(&mut self, x: u8, val: u8)
        requires
            old(self).wf(),
            x < NUM_REGISTERS,
        ensures
            final(self).wf(),
            final(self)@ == old(self)@.with_reg(x, val),
    {
        self.vx.set(x as usize, val);
    }

    /// Moves `pc` on to the next instruction.
    fn advance(&mut self)
        requires
            old(self).wf(),
            old(self)@.waiting is None,
            old(self)@.pc + 2 <= u16::MAX,
        ensures
            final(self).wf(),
            final(self)@ == old(self)@.at(old(self)@.next_pc()),
    {
        self.pc = self.pc + 2;
    }

    /// Moves `pc` past the next instruction when `cond` holds, else to it.
    fn skip_if(&mut self, cond: bool)
        requires
            old(self).wf(),
            old(self)@.waiting is None,
            old(self)@.pc + 4 <= u16::MAX,
        ensures
            final(self).wf(),
            final(self)@ == old(self)@.skip_if(cond),
    {
        self.pc = if cond { self.pc + 4 } else { self.pc + 2 };
    }

    /// Sets register `x` to `val`, then the flag register to `flag`, and
    /// moves on to the next instruction.
    fn set_with_flag(&mut self, x: u8, val: u8, flag: bool)
        requires
            old(self).wf(),
            old(self)@.waiting is None,
            old(self)@.pc + 2 <= u16::MAX,
            x < NUM_REGISTERS,
        ensures
            final(self).wf(),
            final(self)@ == old(self)@.with_flag(x, val, flag),
    {
        self.vx.set(x as usize, val);
        self.vx.set(FLAG, if flag { 1 } else { 0 });
        self.pc = self.pc + 2;
    }

    /// 00EE: returns from a subroutine to the address on top of the stack.
    fn op_00ee(&mut self) -> (r: Result<(), Chip8Error>)
        requires
            old(self).wf(),
            old(self)@.waiting is None,
        ensures
            final(self).wf(),
            follows(old(self)@, final(self)@, r, executed(old(self)@, Instruction::Return, 0)),
    {
        match self.stack.pop() {
            Some(ret) => {
                self.pc = ret;
                Ok(())
            },
            None => Err(Chip8Error::StackUnderflow),
        }
    }

    /// 2nnn: pushes the address of the next instruction and jumps to `nnn`;
    /// with a full stack nothing changes.
    fn op_2nnn(&mut self, nnn: u16) -> (r: Result<(), Chip8Error>)
        requires
            old(self).wf(),
            old(self)@.waiting is None,
            old(self)@.pc + 2 <= u16::MAX,
        ensures
            final(self).wf(),
            follows(old(self)@, final(self)@, r, executed(old(self)@, Instruction::Call(nnn), 0)),
    {
        if self.stack.len() >= STACK_SIZE {
            return Err(Chip8Error::StackOverflow);
        }
        self.stack.push(self.pc + 2);
        self.pc = nnn;
        Ok(())
    }

    /// 7xkk: Vx = Vx + kk, wrapping; VF is left alone.
    fn op_7xkk(&mut self, x: u8, kk: u8)
        requires
            old(self).wf(),
            old(self)@.waiting is None,
            old(self)@.pc + 2 <= u16::MAX,
            x < 16,
        ensures
            final(self).wf(),
            final(self)@ == old(self)@.with_reg(x, ((old(self)@.v[x as int] + kk) % 256) as u8).at(
                old(self)@.next_pc(),
            ),
    {
        let val = self.vx[x as usize].wrapping_add(kk);
        self.set_reg(x, val);
        self.advance();
    }

    /// 8xy4: Vx = Vx + Vy, wrapping; VF = 1 when the sum overflowed 8 bits.
    fn op_8xy4(&mut self, x: u8, y: u8)
        requires
            old(self).wf(),
            old(self)@.waiting is None,
            old(self)@.pc + 2 <= u16::MAX,
            x < 16,
            y < 16,
        ensures
            final(self).wf(),
            final(self)@ == old(self)@.with_flag(
                x,
                ((old(self)@.v[x as int] + old(self)@.v[y as int]) % 256) as u8,
                old(self)@.v[x as int] + old(self)@.v[y as int] > 255,
            ),
    {
        let a = self.vx[x as usize];
        let b = self.vx[y as usize];
        let sum: u16 = a as u16 + b as u16;
        self.set_with_flag(x, a.wrapping_add(b), sum > 0xFF);
    }

    /// 8xy5: Vx = Vx - Vy, wrapping; VF = 1 when Vx >= Vy (no borrow).
    fn op_8xy5(&mut self, x: u8, y: u8)
        requires
            old(self).wf(),
            old(self)@.waiting is None,
            old(self)@.pc + 2 <= u16::MAX,
            x < 16,
            y < 16,
        ensures
            final(self).wf(),
            final(self)@ == old(self)@.with_flag(
                x,
                ((old(self)@.v[x as int] - old(self)@.v[y as int] + 256) % 256) as u8,
                old(self)@.v[x as int] >= old(self)@.v[y as int],
            ),
    {
        let a = self.vx[x as usize];
        let b = self.vx[y as usize];
        self.set_with_flag(x, a.wrapping_sub(b), a >= b);
    }

    /// 8xy6: VF = the low bit of Vx; Vx = Vx >> 1.
    fn op_8xy6(&mut self, x: u8)
        requires
            old(self).wf(),
            old(self)@.waiting is None,
            old(self)@.pc + 2 <= u16::MAX,
            x < 16,
        ensures
            final(self).wf(),
            final(self)@ == old(self)@.with_flag(
                x,
                old(self)@.v[x as int] / 2,
                old(self)@.v[x as int] % 2 == 1,
            ),
    {
        let a = self.vx[x as usize];
        assert(a >> 1u8 == a / 2 && (a & 1u8 == 1u8) == (a % 2 == 1)) by (bit_vector);
        self.set_with_flag(x, a >> 1, a & 1 == 1);
    }

    /// 8xy7: Vx = Vy - Vx, wrapping; VF = 1 when Vy >= Vx (no borrow).
    fn op_8xy7(&mut self, x: u8, y: u8)
        requires
            old(self).wf(),
            old(self)@.waiting is None,
            old(self)@.pc + 2 <= u16::MAX,
            x < 16,
            y < 16,
        ensures
            final(self).wf(),
            final(self)@ == old(self)@.with_flag(
                x,
                ((old(self)@.v[y as int] - old(self)@.v[x as int] + 256) % 256) as u8,
                old(self)@.v[y as int] >= old(self)@.v[x as int],
            ),
    {
        let a = self.vx[x as usize];
        let b = self.vx[y as usize];
        self.set_with_flag(x, b.wrapping_sub(a), b >= a);
    }

    /// 8xyE: VF = the high bit of Vx; Vx = Vx << 1, wrapping.
    fn op_8xye(&mut self, x: u8)
        requires
            old(self).wf(),
            old(self)@.waiting is None,
            old(self)@.pc + 2 <= u16::MAX,
            x < 16,
        ensures
            final(self).wf(),
            final(self)@ == old(self)@.with_flag(
                x,
                ((old(self)@.v[x as int] * 2) % 256) as u8,
                old(self)@.v[x as int] >= 128,
            ),
    {
        let a = self.vx[x as usize];
        assert(a << 1u8 == ((a * 2) % 256) as u8 && ((a >> 7u8) & 1u8 == 1u8) == (a >= 128))
            by (bit_vector);
        self.set_with_flag(x, a << 1, (a >> 7) & 1 == 1);
    }

    /// Fx1E: I = I + Vx, wrapping within 16 bits.
    fn op_fx1e(&mut self, x: u8)
        requires
            old(self).wf(),
            old(self)@.waiting is None,
            old(self)@.pc + 2 <= u16::MAX,
            x < 16,
        ensures
            final(self).wf(),
            final(self)@ == (ChipState {
                index: ((old(self)@.index + old(self)@.v[x as int]) % 0x10000) as u16,
                ..old(self)@
            }).at(old(self)@.next_pc()),
    {
        self.ix = self.ix.wrapping_add(self.vx[x as usize] as u16);
        self.advance();
    }

    /// Fx29: I = the address of the font glyph for the low nibble of Vx.
    fn op_fx29(&mut self, x: u8)
        requires
            old(self).wf(),
            old(self)@.waiting is None,
            old(self)@.pc + 2 <= u16::MAX,
            x < 16,
        ensures
            final(self).wf(),
            final(self)@ == (ChipState {
                index: ((old(self)@.v[x as int] % 16) * 5) as u16,
                ..old(self)@
            }).at(old(self)@.next_pc()),
    {
        self.ix = (self.vx[x as usize] % 16) as u16 * GLYPH_SIZE;
        self.advance();
    }

    /// Dxyn: draws the `n` bytes at the index register as a sprite at
    /// (Vx, Vy) and sets VF to whether a lit pixel went out.
    fn op_dxyn(&mut self, x: u8, y: u8, n: u8) -> (r: Result<(), Chip8Error>)
        requires
            old(self).wf(),
            old(self)@.waiting is None,
            old(self)@.pc + 2 <= u16::MAX,
            x < 16,
            y < 16,
            n < 16,
        ensures
            final(self).wf(),
            follows(
                old(self)@,
                final(self)@,
                r,
                executed(old(self)@, Instruction::Draw(x, y, n), 0),
            ),
    {
        let start = self.ix as usize;
        if start + n as usize > MAX_MEM_SIZE {
            return Err(Chip8Error::AddressOutOfRange);
        }
        let ghost pre = self@;
        let mut sprite: Vec<u8> = Vec::new();
        let mut i: usize = 0;
        while i < n as usize
            invariant
                self@ == pre,
                self.wf(),
                start == pre.index,
                start + n <= MAX_MEM_SIZE,
                i <= n,
                sprite@ == pre.memory.subrange(start as int, start + i),
            decreases n - i,
        {
            let b = match self.memory.read((start + i) as u16) {
                Ok(b) => b,
                Err(e) => return Err(access_error(e)),
            };
            sprite.push(b);
            assert(sprite@ =~= pre.memory.subrange(start as int, start + i + 1));
            i = i + 1;
        }
        let hit = self.display.draw_sprite(
            self.vx[x as usize],
            self.vx[y as usize],
            sprite.as_slice(),
        );
        self.vx.set(FLAG, if hit { 1 } else { 0 });
        self.pc = self.pc + 2;
        Ok(())
    }

    /// Fx33: stores the hundreds, tens and ones of Vx at the index register
    /// and the two bytes after it.
    fn op_fx33(&mut self, x: u8) -> (r: Result<(), Chip8Error>)
        requires
            old(self).wf(),
            old(self)@.waiting is None,
            old(self)@.pc + 2 <= u16::MAX,
            x < 16,
        ensures
            final(self).wf(),
            follows(old(self)@, final(self)@, r, executed(old(self)@, Instruction::StoreBcd(x), 0)),
    {
        if self.ix as usize + 3 > MAX_MEM_SIZE {
            return Err(Chip8Error::AddressOutOfRange);
        }
        let val = self.vx[x as usize];
        let w0 = self.memory.write(self.ix, val / 100);
        let w1 = self.memory.write(self.ix + 1, (val / 10) % 10);
        let w2 = self.memory.write(self.ix + 2, val % 10);
        assert(w0 is Ok && w1 is Ok && w2 is Ok);
        self.pc = self.pc + 2;
        Ok(())
    }

    /// Fx55: stores V0 to Vx, inclusive, in memory from the index register on.
    fn op_fx55(&mut self, x: u8) -> (r: Result<(), Chip8Error>)
        requires
            old(self).wf(),
            old(self)@.waiting is None,
            old(self)@.pc + 2 <= u16::MAX,
            x < 16,
        ensures
            final(self).wf(),
            follows(
                old(self)@,
                final(self)@,
                r,
                executed(old(self)@, Instruction::StoreRegs(x), 0),
            ),
    {
        let start = self.ix as usize;
        if start + x as usize + 1 > MAX_MEM_SIZE {
            return Err(Chip8Error::AddressOutOfRange);
        }
        let ghost pre = self@;
        let mut r: usize = 0;
        while r <= x as usize
            invariant
                self.wf(),
                start == pre.index,
                start + x + 1 <= MAX_MEM_SIZE,
                x < 16,
                r <= x + 1,
                self@ == pre.with_memory(self@.memory),
                forall|a: int|
                    0 <= a < MAX_MEM_SIZE ==> #[trigger] self@.memory[a] == if start <= a < start
                        + r {
                        pre.v[a - start]
                    } else {
                        pre.memory[a]
                    },
            decreases x + 1 - r,
        {
            let written = self.memory.write((start + r) as u16, self.vx[r]);
            assert(written is Ok);
            r = r + 1;
        }
        assert(self@.memory =~= executed(pre, Instruction::StoreRegs(x), 0)->Ok_0.memory);
        self.pc = self.pc + 2;
        Ok(())
    }

    /// Fx65: loads V0 to Vx, inclusive, from memory from the index register on.
    fn op_fx65(&mut self, x: u8) -> (r: Result<(), Chip8Error>)
        requires
            old(self).wf(),
            old(self)@.waiting is None,
            old(self)@.pc + 2 <= u16::MAX,
            x < 16,
        ensures
            final(self).wf(),
            follows(old(self)@, final(self)@, r, executed(old(self)@, Instruction::LoadRegs(x), 0)),
    {
        let start = self.ix as usize;
        if start + x as usize + 1 > MAX_MEM_SIZE {
            return Err(Chip8Error::AddressOutOfRange);
        }
        let ghost pre = self@;
        let mut r: usize = 0;
        while r <= x as usize
            invariant
                self.wf(),
                start == pre.index,
                start + x + 1 <= MAX_MEM_SIZE,
                x < 16,
                r <= x + 1,
                self@.memory == pre.memory,
                self@ == (ChipState { v: self@.v, ..pre }),
                forall|k: int|
                    0 <= k < NUM_REGISTERS ==> #[trigger] self@.v[k] == if k < r {
                        pre.memory[start + k]
                    } else {
                        pre.v[k]
                    },
            decreases x + 1 - r,
        {
            let b = match self.memory.read((start + r) as u16) {
                Ok(b) => b,
                Err(e) => return Err(access_error(e)),
            };
            self.vx.set(r, b);
            r = r + 1;
        }
        assert(self@.v =~= executed(pre, Instruction::LoadRegs(x), 0)->Ok_0.v);
        self.pc = self.pc + 2;
        Ok(())
    }
}

impl CHIP8 {
    /// Executes one decoded instruction; `rnd` is the byte that Cxkk masks.
    /// Every instruction but the jumps, calls, returns, skips and the key
    /// wait moves `pc` on by 2. On an error nothing changes.
    fn execute(&mut self, ins: Instruction, rnd: u8) -> (r: Result<(), Chip8Error>)
        requires
            old(self).wf(),
            old(self)@.waiting is None,
            old(self)@.pc + 1 < MAX_MEM_SIZE,
            ins.wf(),
        ensures
            final(self).wf(),
            follows(old(self)@, final(self)@, r, executed(old(self)@, ins, rnd)),
    {
        match ins {
            Instruction::Clear
            | Instruction::Return
            | Instruction::Jump(..)
            | Instruction::Call(..)
            | Instruction::SkipEqImm(..)
            | Instruction::SkipNeImm(..)
            | Instruction::SkipEqReg(..)
            | Instruction::SkipNeReg(..)
            | Instruction::JumpOffset(..)
            | Instruction::SkipKey(..)
            | Instruction::SkipNoKey(..)
            | Instruction::WaitKey(..) => self.exec_flow(ins, rnd),
            Instruction::LoadImm(..)
            | Instruction::AddImm(..)
            | Instruction::Move(..)
            | Instruction::Or(..)
            | Instruction::And(..)
            | Instruction::Xor(..)
            | Instruction::AddReg(..)
            | Instruction::SubReg(..)
            | Instruction::SubNeg(..)
            | Instruction::ShiftRight(..)
            | Instruction::ShiftLeft(..)
            | Instruction::Random(..) => self.exec_alu(ins, rnd),
            Instruction::LoadIndex(..)
            | Instruction::ReadDelay(..)
            | Instruction::SetDelay(..)
            | Instruction::SetSound(..)
            | Instruction::AddIndex(..)
            | Instruction::FontChar(..)
            | Instruction::Draw(..)
            | Instruction::StoreBcd(..)
            | Instruction::StoreRegs(..)
            | Instruction::LoadRegs(..) => self.exec_system(ins, rnd),
        }
    }

    /// Executes a screen clear, jump, call, return, skip or key wait.
    fn exec_flow(&mut self, ins: Instruction, rnd: u8) -> (r: Result<(), Chip8Error>)
        requires
            old(self).wf(),
            old(self)@.waiting is None,
            old(self)@.pc + 1 < MAX_MEM_SIZE,
            ins.wf(),
            ins.is_flow(),
        ensures
            final(self).wf(),
            follows(old(self)@, final(self)@, r, executed(old(self)@, ins, rnd)),
    {
        match ins {
            Instruction::Clear => {
                self.display.clear();
                self.advance();
            },
            Instruction::Return => return self.op_00ee(),
            Instruction::Jump(nnn) => self.pc = nnn,
            Instruction::Call(nnn) => return self.op_2nnn(nnn),
            Instruction::SkipEqImm(x, kk) => {
                let cond = self.vx[x as usize] == kk;
                self.skip_if(cond);
            },
            Instruction::SkipNeImm(x, kk) => {
                let cond = self.vx[x as usize] != kk;
                self.skip_if(cond);
            },
            Instruction::SkipEqReg(x, y) => {
                let cond = self.vx[x as usize] == self.vx[y as usize];
                self.skip_if(cond);
            },
            Instruction::SkipNeReg(x, y) => {
                let cond = self.vx[x as usize] != self.vx[y as usize];
                self.skip_if(cond);
            },
            Instruction::JumpOffset(nnn) => self.pc = nnn + self.vx[0] as u16,
            Instruction::SkipKey(x) => {
                let cond = self.key_down(self.vx[x as usize]);
                self.skip_if(cond);
            },
            Instruction::SkipNoKey(x) => {
                let cond = !self.key_down(self.vx[x as usize]);
                self.skip_if(cond);
            },
            Instruction::WaitKey(x) => self.waiting_key = Some(x),
            // the precondition leaves out every other instruction
            _ => return Ok(()),
        }
        Ok(())
    }

    /// Executes an instruction that computes a register from registers, an
    /// immediate or a random byte.
    fn exec_alu(&mut self, ins: Instruction, rnd: u8) -> (r: Result<(), Chip8Error>)
        requires
            old(self).wf(),
            old(self)@.waiting is None,
            old(self)@.pc + 1 < MAX_MEM_SIZE,
            ins.wf(),
            ins.is_alu(),
        ensures
            final(self).wf(),
            follows(old(self)@, final(self)@, r, executed(old(self)@, ins, rnd)),
    {
        match ins {
            Instruction::LoadImm(x, kk) => {
                self.set_reg(x, kk);
                self.advance();
            },
            Instruction::AddImm(x, kk) => self.op_7xkk(x, kk),
            Instruction::Move(x, y) => {
                let val = self.vx[y as usize];
                self.set_reg(x, val);
                self.advance();
            },
            Instruction::Or(x, y) => {
                let val = self.vx[x as usize] | self.vx[y as usize];
                self.set_reg(x, val);
                self.advance();
            },
            Instruction::And(x, y) => {
                let val = self.vx[x as usize] & self.vx[y as usize];
                self.set_reg(x, val);
                self.advance();
            },
            Instruction::Xor(x, y) => {
                let val = self.vx[x as usize] ^ self.vx[y as usize];
                self.set_reg(x, val);
                self.advance();
            },
            Instruction::AddReg(x, y) => self.op_8xy4(x, y),
            Instruction::SubReg(x, y) => self.op_8xy5(x, y),
            Instruction::SubNeg(x, y) => self.op_8xy7(x, y),
            Instruction::ShiftRight(x) => self.op_8xy6(x),
            Instruction::ShiftLeft(x) => self.op_8xye(x),
            Instruction::Random(x, kk) => {
                self.set_reg(x, rnd & kk);
                self.advance();
            },
            // the precondition leaves out every other instruction
            _ => return Ok(()),
        }
        Ok(())
    }

    /// Executes an instruction on the index register, the timers, memory
    /// or the screen.
    fn exec_system(&mut self, ins: Instruction, rnd: u8) -> (r: Result<(), Chip8Error>)
        requires
            old(self).wf(),
            old(self)@.waiting is None,
            old(self)@.pc + 1 < MAX_MEM_SIZE,
            ins.wf(),
            ins.is_system(),
        ensures
            final(self).wf(),
            follows(old(self)@, final(self)@, r, executed(old(self)@, ins, rnd)),
    {
        match ins {
            Instruction::LoadIndex(nnn) => {
                self.ix = nnn;
                self.advance();
            },
            Instruction::ReadDelay(x) => {
                let val = self.delay_timer;
                self.set_reg(x, val);
                self.advance();
            },
            Instruction::SetDelay(x) => {
                self.delay_timer = self.vx[x as usize];
                self.advance();
            },
            Instruction::SetSound(x) => {
                self.sound_timer = self.vx[x as usize];
                self.advance();
            },
            Instruction::AddIndex(x) => self.op_fx1e(x),
            Instruction::FontChar(x) => self.op_fx29(x),
            Instruction::Draw(x, y, n) => return self.op_dxyn(x, y, n),
            Instruction::StoreBcd(x) => return self.op_fx33(x),
            Instruction::StoreRegs(x) => return self.op_fx55(x),
            Instruction::LoadRegs(x) => return self.op_fx65(x),
            // the precondition leaves out every other instruction
            _ => return Ok(()),
        }
        Ok(())
    }

    /// Whether key `k` is down; a value above 0xF names no key.
    fn key_down(&self, k: u8) -> (r: bool)
        ensures
            r == key_pressed(self@.keys, k as int),
    {
        k < NUM_KEYS && (self.keypad >> k) & 1 == 1
    }
}

/// Relies on rand::random (thread_rng().gen()): a byte drawn at random, of
/// which nothing is promised.
#[verifier::external_body]
fn random_byte() -> (r: u8) {
    rand::random::<u8>()
}

impl CHIP8 {
    /// The lowest key that is down, or 16 when none is.
    fn first_key_down(&self) -> (r: u8)
        ensures
            r as int == first_key(self@.keys),
    {
        let mut k: u8 = 0;
        while k < NUM_KEYS
            invariant
                k <= NUM_KEYS,
                first_key(self@.keys) == first_key_from(self@.keys, k as int),
            decreases NUM_KEYS - k,
        {
            if self.key_down(k) {
                return k;
            }
            k = k + 1;
        }
        k
    }

    /// One step of the machine, with `rnd` as the byte that a Cxkk masks.
    /// While a key wait is pending the step only looks at the keypad: with
    /// a key down it puts the lowest such key in the waiting register and
    /// moves on, else it changes nothing. Otherwise it fetches, decodes and
    /// executes the instruction at `pc`. On an error nothing changes.
    pub fn step_with(&mut self, rnd: u8) -> (r: Result<(), Chip8Error>)
        requires
            old(self).wf(),
        ensures
            final(self).wf(),
            follows(old(self)@, final(self)@, r, stepped(old(self)@, rnd)),
    {
        if let Some(x) = self.waiting_key {
            let k = self.first_key_down();
            if k < NUM_KEYS {
                self.waiting_key = None;
                self.set_reg(x, k);
                self.advance();
            }
            return Ok(());
        }
        let op = match self.fetch_opcode() {
            Ok(op) => op,
            Err(e) => return Err(e),
        };
        match decode(op) {
            Some(ins) => self.execute(ins, rnd),
            None => Err(Chip8Error::UnknownOpcode(op, self.pc)),
        }
    }

    /// One step of the machine; a Cxkk draws its byte at random. The step
    /// does what `step_with` does for some byte.
    pub fn step(&mut self) -> (r: Result<(), Chip8Error>)
        requires
            old(self).wf(),
        ensures
            final(self).wf(),
            exists|rnd: u8|
                follows(old(self)@, final(self)@, r, #[trigger] stepped(old(self)@, rnd)),
    {
        let rnd = random_byte();
        self.step_with(rnd)
    }

    /// The 60 Hz timer tick: each timer that is above zero goes down by one.
    pub fn tick(&mut self)
        requires
            old(self).wf(),
        ensures
            final(self).wf(),
            final(self)@ == (ChipState {
                delay: if old(self)@.delay > 0 { (old(self)@.delay - 1) as u8 } else { 0 },
                sound: if old(self)@.sound > 0 { (old(self)@.sound - 1) as u8 } else { 0 },
                ..old(self)@
            }),
    {
        if self.delay_timer > 0 {
            self.delay_timer = self.delay_timer - 1;
        }
        if self.sound_timer > 0 {
            self.sound_timer = self.sound_timer - 1;
        }
    }

    /// Replaces the whole keypad: bit k is key k.
    pub fn set_keypad(&mut self, keys: u16)
        requires
            old(self).wf(),
        ensures
            final(self).wf(),
            final(self)@ == (ChipState { keys, ..old(self)@ }),
    {
        self.keypad = keys;
    }

    /// Marks key `k` as down.
    pub fn press_key(&mut self, k: u8)
        requires
            old(self).wf(),
            k < NUM_KEYS,
        ensures
            final(self).wf(),
            final(self)@ == (ChipState {
                keys: old(self)@.keys | (1u16 << k as u16),
                ..old(self)@
            }),
    {
        self.keypad = self.keypad | (1u16 << k);
    }

    /// Marks key `k` as up.
    pub fn release_key(&mut self, k: u8)
        requires
            old(self).wf(),
            k < NUM_KEYS,
        ensures
            final(self).wf(),
            final(self)@ == (ChipState {
                keys: old(self)@.keys & !(1u16 << k as u16),
                ..old(self)@
            }),
    {
        self.keypad = self.keypad & !(1u16 << k);
    }

    /// The address of the next instruction.
    pub fn pc(&self) -> (r: u16)
        ensures
            r == self@.pc,
    {
        self.pc
    }

    /// The index register.
    pub fn index(&self) -> (r: u16)
        ensures
            r == self@.index,
    {
        self.ix
    }

    /// Register Vx.
    pub fn register(&self, x: u8) -> (r: u8)
        requires
            self.wf(),
            x < NUM_REGISTERS,
        ensures
            r == self@.v[x as int],
    {
        self.vx[x as usize]
    }

    /// The number of return addresses on the stack.
    pub fn stack_depth(&self) -> (r: usize)
        ensures
            r == self@.stack.len(),
    {
        self.stack.len()
    }

    /// The delay timer.
    pub fn delay_timer(&self) -> (r: u8)
        ensures
            r == self@.delay,
    {
        self.delay_timer
    }

    /// The sound timer.
    pub fn sound_timer(&self) -> (r: u8)
        ensures
            r == self@.sound,
    {
        self.sound_timer
    }

    /// Whether the sound is on: the sound timer is above zero.
    pub fn sound_active(&self) -> (r: bool)
        ensures
            r == (self@.sound > 0),
    {
        self.sound_timer > 0
    }

    /// The keypad bitmap.
    pub fn keypad(&self) -> (r: u16)
        ensures
            r == self@.keys,
    {
        self.keypad
    }

    /// Whether a key wait (Fx0A) is pending.
    pub fn awaiting_key(&self) -> (r: bool)
        ensures
            r == self@.waiting is Some,
    {
        self.waiting_key.is_some()
    }

    /// The memory, for reading.
    pub fn memory(&self) -> (r: &Memory)
        ensures
            r@ == self@.memory,
    {
        &self.memory
    }

    /// The screen, for rendering.
    pub fn display(&self) -> (r: &Display)
        ensures
            r@ == self@.screen,
    {
        &self.display
    }
}

/// Where `pc` goes when `ins` succeeds in state `s`: jumps, calls and
/// returns go to their target, skips go past or to the next instruction
/// by their condition, a key wait stays put, and every other instruction
/// moves on by one instruction width.
pub open spec fn pc_target(s: ChipState, ins: Instruction) -> int {
    let vx = |x: u8| s.v[x as int];
    match ins {
        Instruction::Jump(nnn) => nnn as int,
        Instruction::Call(nnn) => nnn as int,
        Instruction::Return => s.stack.last() as int,
        Instruction::JumpOffset(nnn) => nnn + s.v[0],
        Instruction::SkipEqImm(x, kk) => if vx(x) == kk { s.pc + 4 } else { s.pc + 2 },
        Instruction::SkipNeImm(x, kk) => if vx(x) != kk { s.pc + 4 } else { s.pc + 2 },
        Instruction::SkipEqReg(x, y) => if vx(x) == vx(y) { s.pc + 4 } else { s.pc + 2 },
        Instruction::SkipNeReg(x, y) => if vx(x) != vx(y) { s.pc + 4 } else { s.pc + 2 },
        Instruction::SkipKey(x) => if key_pressed(s.keys, vx(x) as int) {
            s.pc + 4
        } else {
            s.pc + 2
        },
        Instruction::SkipNoKey(x) => if !key_pressed(s.keys, vx(x) as int) {
            s.pc + 4
        } else {
            s.pc + 2
        },
        Instruction::WaitKey(_) => s.pc as int,
        _ => s.pc + 2,
    }
}

/// Every instruction that succeeds leaves `pc` at `pc_target`: by exactly 2
/// for all but the control-flow instructions, at an explicit target for those.
pub proof fn lemma_pc_after_execute(s: ChipState, ins: Instruction, rnd: u8)
    requires
        s.wf(),
        ins.wf(),
        s.pc + 1 < MAX_MEM_SIZE,
    ensures
        executed(s, ins, rnd) matches Ok(t) ==> t.pc == pc_target(s, ins),
{
}

/// A call pushes the address after it while fewer than 16 return addresses
/// are on the stack, and fails with `StackOverflow`, changing nothing, once
/// 16 are; a return on an empty stack fails with `StackUnderflow`.
pub proof fn lemma_stack_depth(s: ChipState, nnn: u16, rnd: u8)
    requires
        s.wf(),
        s.pc + 1 < MAX_MEM_SIZE,
    ensures
        s.stack.len() < STACK_SIZE ==> (executed(s, Instruction::Call(nnn), rnd) matches Ok(t)
            && t.stack == s.stack.push((s.pc + 2) as u16) && t.pc == nnn),
        s.stack.len() == STACK_SIZE ==> executed(s, Instruction::Call(nnn), rnd) == Err::<
            ChipState,
            Chip8Error,
        >(Chip8Error::StackOverflow),
        s.stack.len() == 0 ==> executed(s, Instruction::Return, rnd) == Err::<ChipState, Chip8Error>(
            Chip8Error::StackUnderflow,
        ),
{
}

proof fn lemma_first_key_from(keys: u16, j: int)
    requires
        0 <= j <= NUM_KEYS,
    ensures
        (forall|k: int| j <= k < NUM_KEYS ==> !key_pressed(keys, k)) ==> first_key_from(keys, j)
            == NUM_KEYS,
        forall|k: int|
            j <= k < NUM_KEYS && key_pressed(keys, k) && (forall|i: int|
                j <= i < k ==> !key_pressed(keys, i)) ==> first_key_from(keys, j) == k,
    decreases NUM_KEYS - j,
{
    if j < NUM_KEYS {
        lemma_first_key_from(keys, j + 1);
        assert forall|k: int|
            j <= k < NUM_KEYS && key_pressed(keys, k) && (forall|i: int|
                j <= i < k ==> !key_pressed(keys, i)) implies first_key_from(keys, j) == k by {
            if k > j {
                assert(!key_pressed(keys, j));
            }
        }
    }
}

/// Fx0A only starts a wait and leaves `pc` where it is. While the wait is
/// pending and no key is down a step changes nothing, however often it is
/// taken; once key `k` is the lowest key down, the next step puts `k` in the
/// waiting register, ends the wait and moves `pc` on by 2.
pub proof fn lemma_key_wait(s: ChipState, x: u8, k: int, rnd: u8)
    requires
        s.wf(),
        x < 16,
        s.pc + 1 < MAX_MEM_SIZE,
    ensures
        s.waiting is None ==> (executed(s, Instruction::WaitKey(x), rnd) matches Ok(t) && t.pc
            == s.pc && t.waiting == Some(x)),
        s.waiting is Some && (forall|j: int| 0 <= j < NUM_KEYS ==> !key_pressed(s.keys, j))
            ==> stepped(s, rnd) == Ok::<ChipState, Chip8Error>(s),
        s.waiting == Some(x) && 0 <= k < NUM_KEYS && key_pressed(s.keys, k) && (forall|j: int|
            0 <= j < k ==> !key_pressed(s.keys, j)) ==> (stepped(s, rnd) matches Ok(t) && t.pc
            == s.pc + 2 && t.v[x as int] == k && t.waiting is None),
{
    lemma_first_key_from(s.keys, 0);
}

} // verus!
