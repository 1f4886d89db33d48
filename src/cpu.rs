use vstd::prelude::*;

use rand::Rng;

use crate::display::{blank, draw, Display};
use crate::error::CpuError;
use crate::instruction::{decode, decode_spec, operands_bounded, Instruction};
use crate::mem::{initial_memory, word_of, write_range, Memory, MEM_SIZE, PROG_START};

verus! {

/// Number of general-purpose registers.
pub const NUM_REGS: usize = 16;

/// The register that receives carry, borrow, shift and collision flags.
pub const FLAG: usize = 15;

/// Number of return addresses the call stack holds.
pub const STACK_DEPTH: usize = 16;

/// The whole state of the machine, as contracts speak of it.
pub struct Machine {
    /// The address space.
    pub memory: Seq<u8>,
    /// The display's pixels, row by row.
    pub screen: Seq<bool>,
    /// Registers `V0` to `VF`.
    pub v: Seq<u8>,
    /// The index register `I`.
    pub i: u16,
    /// The program counter.
    pub pc: u16,
    /// The call stack; slots `0..sp` are in use.
    pub stack: Seq<u16>,
    /// The number of return addresses on the stack.
    pub sp: u8,
    /// The delay timer.
    pub delay: u8,
    /// The sound timer.
    pub sound: u8,
}

/// Every part of the machine has its fixed size.
pub open spec fn machine_wf(m: Machine) -> bool {
    &&& m.memory.len() == MEM_SIZE
    &&& m.screen.len() == crate::display::PIXELS
    &&& m.v.len() == NUM_REGS
    &&& m.stack.len() == STACK_DEPTH
    &&& m.sp <= STACK_DEPTH
}

/// `m` with register `x` set to `val`.
pub open spec fn set_reg(m: Machine, x: int, val: u8) -> Machine {
    Machine { v: m.v.update(x, val), ..m }
}

/// `m` with the program counter moved past the current instruction.
pub open spec fn next(m: Machine) -> Machine {
    Machine { pc: (m.pc + 2) as u16, ..m }
}

/// `m` with the program counter moved past the current instruction, and
/// past the one after it when `cond` holds.
pub open spec fn skip_if(m: Machine, cond: bool) -> Machine {
    Machine { pc: (m.pc + if cond { 4int } else { 2int }) as u16, ..m }
}

/// The flag register's value for a condition.
pub open spec fn flag_of(b: bool) -> u8 {
    if b {
        1
    } else {
        0
    }
}

/// `m` after an arithmetic instruction: `Vx` set to `val`, then the flag
/// register to `flag`, then the program counter advanced.
pub open spec fn arith(m: Machine, x: u8, val: u8, flag: bool) -> Machine {
    next(set_reg(set_reg(m, x as int, val), FLAG as int, flag_of(flag)))
}

/// What executing `ins` does to `m`, with `rnd` as the random byte that a
/// `Random` instruction would draw.
pub open spec fn execute_spec(m: Machine, ins: Instruction, rnd: u8) -> Result<Machine, CpuError> {
    match ins {
        Instruction::Clear => Ok(next(Machine { screen: blank(), ..m })),
        Instruction::Return => if m.sp == 0 {
            Err(CpuError::StackUnderflow)
        } else {
            Ok(Machine { sp: (m.sp - 1) as u8, pc: m.stack[m.sp - 1], ..m })
        },
        Instruction::Jump { nnn } => Ok(Machine { pc: nnn, ..m }),
        Instruction::Call { nnn } => if m.sp >= STACK_DEPTH {
            Err(CpuError::StackOverflow)
        } else {
            Ok(
                Machine {
                    stack: m.stack.update(m.sp as int, (m.pc + 2) as u16),
                    sp: (m.sp + 1) as u8,
                    pc: nnn,
                    ..m
                },
            )
        },
        Instruction::SkipEqByte { x, kk } => Ok(skip_if(m, m.v[x as int] == kk)),
        Instruction::SkipNeByte { x, kk } => Ok(skip_if(m, m.v[x as int] != kk)),
        Instruction::SkipEqReg { x, y } => Ok(skip_if(m, m.v[x as int] == m.v[y as int])),
        Instruction::SkipNeReg { x, y } => Ok(skip_if(m, m.v[x as int] != m.v[y as int])),
        Instruction::LoadByte { x, kk } => Ok(next(set_reg(m, x as int, kk))),
        Instruction::AddByte { x, kk } => Ok(
            next(set_reg(m, x as int, ((m.v[x as int] + kk) % 256) as u8)),
        ),
        Instruction::LoadReg { x, y } => Ok(next(set_reg(m, x as int, m.v[y as int]))),
        Instruction::Or { x, y } => Ok(next(set_reg(m, x as int, m.v[x as int] | m.v[y as int]))),
        Instruction::And { x, y } => Ok(next(set_reg(m, x as int, m.v[x as int] & m.v[y as int]))),
        Instruction::Xor { x, y } => Ok(next(set_reg(m, x as int, m.v[x as int] ^ m.v[y as int]))),
        Instruction::AddReg { x, y } => {
            let sum = m.v[x as int] + m.v[y as int];
            Ok(arith(m, x, (sum % 256) as u8, sum > 255))
        },
        Instruction::SubReg { x, y } => {
            let (a, b) = (m.v[x as int], m.v[y as int]);
            Ok(arith(m, x, ((a - b) % 256) as u8, a >= b))
        },
        Instruction::ShiftRight { x } => {
            let a = m.v[x as int];
            Ok(next(set_reg(set_reg(m, x as int, a / 2), FLAG as int, a % 2)))
        },
        Instruction::ShiftLeft { x } => {
            let a = m.v[x as int];
            Ok(arith(m, x, ((a * 2) % 256) as u8, a >= 128))
        },
        Instruction::LoadIndex { nnn } => Ok(next(Machine { i: nnn, ..m })),
        Instruction::Random { x, kk } => Ok(next(set_reg(m, x as int, rnd & kk))),
        Instruction::Draw { x, y, n } => if m.i + n > MEM_SIZE {
            Err(CpuError::OutOfBounds((m.i + n - 1) as usize))
        } else {
            let d = draw(
                m.screen,
                m.v[x as int] as int,
                m.v[y as int] as int,
                m.memory.subrange(m.i as int, m.i + n),
            );
            Ok(next(set_reg(Machine { screen: d.0, ..m }, FLAG as int, flag_of(d.1))))
        },
        Instruction::AddIndex { x } => Ok(next(Machine { i: ((m.i + m.v[x as int]) % 0x10000) as u16, ..m })),
        Instruction::StoreRegs { x } => if m.i + x >= MEM_SIZE {
            Err(CpuError::OutOfBounds((m.i + x) as usize))
        } else {
            Ok(next(Machine { memory: write_range(m.memory, m.i as int, m.v.take(x + 1)), ..m }))
        },
        Instruction::LoadRegs { x } => if m.i + x >= MEM_SIZE {
            Err(CpuError::OutOfBounds((m.i + x) as usize))
        } else {
            Ok(next(Machine { v: write_range(m.v, 0, m.memory.subrange(m.i as int, m.i + x + 1)), ..m }))
        },
    }
}

/// The word at the program counter, or the address that lies outside memory.
pub open spec fn fetch_spec(m: Machine) -> Result<u16, CpuError> {
    if m.pc + 1 < MEM_SIZE {
        Ok(word_of(m.memory[m.pc as int], m.memory[m.pc + 1]))
    } else {
        Err(CpuError::OutOfBounds(if m.pc < MEM_SIZE { (m.pc + 1) as usize } else { m.pc as usize }))
    }
}

/// One step: fetch, and unless the word is the halt word zero, decode and
/// execute it.
pub open spec fn step_spec(m: Machine, rnd: u8) -> Result<Machine, CpuError> {
    match fetch_spec(m) {
        Err(e) => Err(e),
        Ok(op) => if op == 0 {
            Ok(m)
        } else {
            match decode_spec(op) {
                None => Err(CpuError::UnknownOpcode(op)),
                Some(ins) => execute_spec(m, ins, rnd),
            }
        },
    }
}

/// Whether `after` and the result `r` are what a step from `before` gives
/// with random byte `rnd`: the next state, or the error and no change.
pub open spec fn step_outcome(before: Machine, rnd: u8, r: Result<(), CpuError>, after: Machine) -> bool {
    match step_spec(before, rnd) {
        Ok(m) => r is Ok && after == m,
        Err(e) => r == Err::<(), CpuError>(e) && after == before,
    }
}

/// A timer after one tick: one less, but never below zero.
pub open spec fn tick_down(t: u8) -> u8 {
    if t > 0 {
        (t - 1) as u8
    } else {
        0
    }
}

/// Relies on rand's `thread_rng` and `Rng::gen` for a uniformly drawn byte;
/// nothing is known of its value.
#[verifier::external_body]
fn random_byte() -> (r: u8) {
    rand::thread_rng().gen::<u8>()
}

/// The interpreter: memory, display, registers, call stack and timers.
pub struct Cpu {
    memory: Memory,
    display: Display,
    registers: Vec<u8>,
    register_index: u16,
    pc: u16,
    stack: Vec<u16>,
    sp: u8,
    delay: u8,
    sound: u8,
}

impl View for Cpu {
    type V = Machine;

    closed spec fn view(&self) -> Machine {
        Machine {
            memory: self.memory@,
            screen: self.display@,
            v: self.registers@,
            i: self.register_index,
            pc: self.pc,
            stack: self.stack@,
            sp: self.sp,
            delay: self.delay,
            sound: self.sound,
        }
    }
}

impl Cpu {
    /// Every part of the machine has its fixed size.
    pub open spec fn wf(&self) -> bool {
        machine_wf(self@)
    }

    /// A machine with `rom` loaded at 0x200, the font at 0x50, the program
    /// counter at 0x200 and everything else zero. Fails when `rom` does not
    /// fit in memory.
    pub fn new(rom: &[u8]) -> (r: Result<Cpu, CpuError>)
        ensures
            PROG_START + rom@.len() > MEM_SIZE ==> r == Err::<Cpu, CpuError>(
                CpuError::ProgramTooLarge,
            ),
            PROG_START + rom@.len() <= MEM_SIZE ==> (r matches Ok(cpu) && cpu.wf() && cpu@
                == initial_machine(rom@)),
    {
        let mut memory = Memory::new();
        match memory.load(rom) {
            Ok(()) => {},
            Err(e) => return Err(e),
        }
        let registers = zeros_u8(NUM_REGS);
        let stack = zeros_u16(STACK_DEPTH);
        let cpu = Cpu {
            memory,
            display: Display::new(),
            registers,
            register_index: 0,
            pc: PROG_START as u16,
            stack,
            sp: 0,
            delay: 0,
            sound: 0,
        };
        assert(cpu@ =~= initial_machine(rom@));
        Ok(cpu)
    }

    /// The words from the program counter to the end of memory, two bytes
    /// each, big-endian; empty when the program counter lies past the end.
    pub fn opcodes(&self) -> (r: Vec<u16>)
        requires
            self.wf(),
        ensures
            r@ == words_from(self@.memory, self@.pc as int),
    {
        let mut out: Vec<u16> = Vec::new();
        let mut a: usize = self.pc as usize;
        let ghost start = self.pc as int;
        if a >= MEM_SIZE {
            assert(out@ =~= words_from(self@.memory, start));
            return out;
        }
        while a + 1 < MEM_SIZE
            invariant
                self.wf(),
                start < MEM_SIZE,
                start <= a < MEM_SIZE + 1,
                (a - start) % 2 == 0,
                out@.len() == (a - start) / 2,
                forall|k: int|
                    0 <= k < out@.len() ==> out@[k] == word_of(
                        self@.memory[start + 2 * k],
                        self@.memory[start + 2 * k + 1],
                    ),
            decreases MEM_SIZE - a,
        {
            out.push(crate::mem::fuse(self.memory.at(a), self.memory.at(a + 1)));
            a = a + 2;
        }
        assert(out@ =~= words_from(self@.memory, start));
        out
    }

    /// A copy of the display: 32 rows of 64 pixels, top row first.
    pub fn display_bits(&self) -> (r: Vec<Vec<bool>>)
        requires
            self.wf(),
        ensures
            r@.len() == crate::display::HEIGHT,
            forall|row: int|
                0 <= row < crate::display::HEIGHT ==> #[trigger] r@[row]@.len()
                    == crate::display::WIDTH,
            forall|row: int, col: int|
                0 <= row < crate::display::HEIGHT && 0 <= col < crate::display::WIDTH
                    ==> #[trigger] r@[row]@[col] == self@.screen[row * 64 + col],
    {
        self.display.rows()
    }

    /// Whether the machine still runs: false once the word at the program
    /// counter is the halt word zero.
    pub fn running(&self) -> (r: bool)
        requires
            self.wf(),
        ensures
            r == !(fetch_spec(self@) == Ok::<u16, CpuError>(0u16)),
    {
        match self.memory.read_instruction_word(self.pc) {
            Ok(op) => op != 0,
            Err(_) => true,
        }
    }

    /// Executes one instruction, with `random` as the byte that a `Random`
    /// instruction draws. On failure nothing changes.
    pub fn execute(&mut self, random: u8) -> (r: Result<(), CpuError>)
        requires
            old(self).wf(),
        ensures
            final(self).wf(),
            step_outcome(old(self)@, random, r, final(self)@),
    {
        let op = match self.memory.read_instruction_word(self.pc) {
            Ok(op) => op,
            Err(e) => return Err(e),
        };
        if op == 0 {
            return Ok(());
        }
        match decode(op) {
            Some(ins) => self.run_instruction(ins, random),
            None => Err(CpuError::UnknownOpcode(op)),
        }
    }

    /// Executes one instruction, drawing a fresh random byte for it. On
    /// failure nothing changes.
    pub fn step(&mut self) -> (r: Result<(), CpuError>)
        requires
            old(self).wf(),
        ensures
            final(self).wf(),
            exists|rnd: u8| step_outcome(old(self)@, rnd, r, final(self)@),
    {
        let rnd = random_byte();
        self.execute(rnd)
    }

    /// Counts both timers down by one, stopping at zero.
    pub fn tick(&mut self)
        requires
            old(self).wf(),
        ensures
            final(self).wf(),
            final(self)@ == (Machine {
                delay: tick_down(old(self)@.delay),
                sound: tick_down(old(self)@.sound),
                ..old(self)@
            }),
    {
        if self.delay > 0 {
            self.delay = self.delay - 1;
        }
        if self.sound > 0 {
            self.sound = self.sound - 1;
        }
    }

    /// The program counter.
    pub fn pc(&self) -> (r: u16)
        ensures
            r == self@.pc,
    {
        self.pc
    }

    /// The index register `I`.
    pub fn index(&self) -> (r: u16)
        ensures
            r == self@.i,
    {
        self.register_index
    }

    /// The number of return addresses on the call stack.
    pub fn stack_depth(&self) -> (r: u8)
        ensures
            r == self@.sp,
    {
        self.sp
    }

    /// Register `Vx`.
    pub fn register(&self, x: u8) -> (r: u8)
        requires
            self.wf(),
            x < NUM_REGS,
        ensures
            r == self@.v[x as int],
    {
        self.read_register(x)
    }

    /// Sets register `Vx` to `value`.
    pub fn set_register(&mut self, x: u8, value: u8)
        requires
            old(self).wf(),
            x < NUM_REGS,
        ensures
            final(self).wf(),
            final(self)@ == set_reg(old(self)@, x as int, value),
    {
        self.load_register(x, value)
    }

    /// The delay timer.
    pub fn delay(&self) -> (r: u8)
        ensures
            r == self@.delay,
    {
        self.delay
    }

    /// Sets the delay timer.
    pub fn set_delay(&mut self, value: u8)
        ensures
            final(self)@ == (Machine { delay: value, ..old(self)@ }),
    {
        self.delay = value;
    }

    /// The sound timer.
    pub fn sound(&self) -> (r: u8)
        ensures
            r == self@.sound,
    {
        self.sound
    }

    /// Sets the sound timer.
    pub fn set_sound(&mut self, value: u8)
        ensures
            final(self)@ == (Machine { sound: value, ..old(self)@ }),
    {
        self.sound = value;
    }

    /// The address space, for reading.
    pub fn memory(&self) -> (r: &Memory)
        ensures
            r@ == self@.memory,
    {
        &self.memory
    }

    /// The display, for reading.
    pub fn display(&self) -> (r: &Display)
        ensures
            r@ == self@.screen,
    {
        &self.display
    }

    fn read_register(&self, x: u8) -> (r: u8)
        requires
            self.wf(),
            x < NUM_REGS,
        ensures
            r == self@.v[x as int],
    {
        self.registers[x as usize]
    }

    fn load_register(&mut self, x: u8, value: u8)
        requires
            old(self).wf(),
            x < NUM_REGS,
        ensures
            final(self)@ == set_reg(old(self)@, x as int, value),
    {
        self.registers.set(x as usize, value);
    }

    /// Executes a decoded instruction found at the program counter.
    fn run_instruction(&mut self, ins: Instruction, random: u8) -> (r: Result<(), CpuError>)
        requires
            old(self).wf(),
            old(self)@.pc + 1 < MEM_SIZE,
            operands_bounded(ins),
        ensures
            final(self).wf(),
            match execute_spec(old(self)@, ins, random) {
                Ok(m) => r is Ok && final(self)@ == m,
                Err(e) => r == Err::<(), CpuError>(e) && final(self)@ == old(self)@,
            },
    {
        match ins {
            Instruction::Clear => {
                self.display.clear();
                self.pc = self.pc + 2;
            },
            Instruction::Return => {
                if self.sp == 0 {
                    return Err(CpuError::StackUnderflow);
                }
                self.sp = self.sp - 1;
                self.pc = self.stack[self.sp as usize];
            },
            Instruction::Jump { nnn } => {
                self.pc = nnn;
            },
            Instruction::Call { nnn } => {
                if self.sp as usize >= STACK_DEPTH {
                    return Err(CpuError::StackOverflow);
                }
                self.stack.set(self.sp as usize, self.pc + 2);
                self.sp = self.sp + 1;
                self.pc = nnn;
            },
            Instruction::SkipEqByte { x, kk } => {
                let skip = self.read_register(x) == kk;
                self.pc = if skip { self.pc + 4 } else { self.pc + 2 };
            },
            Instruction::SkipNeByte { x, kk } => {
                let skip = self.read_register(x) != kk;
                self.pc = if skip { self.pc + 4 } else { self.pc + 2 };
            },
            Instruction::SkipEqReg { x, y } => {
                let skip = self.read_register(x) == self.read_register(y);
                self.pc = if skip { self.pc + 4 } else { self.pc + 2 };
            },
            Instruction::SkipNeReg { x, y } => {
                let skip = self.read_register(x) != self.read_register(y);
                self.pc = if skip { self.pc + 4 } else { self.pc + 2 };
            },
            Instruction::LoadByte { x, kk } => {
                self.load_register(x, kk);
                self.pc = self.pc + 2;
            },
            Instruction::AddByte { x, kk } => {
                let new = ((self.read_register(x) as u16 + kk as u16) % 256) as u8;
                self.load_register(x, new);
                self.pc = self.pc + 2;
            },
            Instruction::LoadReg { x, y } => {
                let vy = self.read_register(y);
                self.load_register(x, vy);
                self.pc = self.pc + 2;
            },
            Instruction::Or { x, y } => {
                let new = self.read_register(x) | self.read_register(y);
                self.load_register(x, new);
                self.pc = self.pc + 2;
            },
            Instruction::And { x, y } => {
                let new = self.read_register(x) & self.read_register(y);
                self.load_register(x, new);
                self.pc = self.pc + 2;
            },
            Instruction::Xor { x, y } => {
                let new = self.read_register(x) ^ self.read_register(y);
                self.load_register(x, new);
                self.pc = self.pc + 2;
            },
            Instruction::AddReg { x, y } => {
                let sum = self.read_register(x) as u16 + self.read_register(y) as u16;
                self.load_register(x, (sum % 256) as u8);
                self.load_register(FLAG as u8, if sum > 255 { 1 } else { 0 });
                self.pc = self.pc + 2;
            },
            Instruction::SubReg { x, y } => {
                let vx = self.read_register(x);
                let vy = self.read_register(y);
                let diff = ((vx as u16 + 256 - vy as u16) % 256) as u8;
                self.load_register(x, diff);
                self.load_register(FLAG as u8, if vx >= vy { 1 } else { 0 });
                self.pc = self.pc + 2;
            },
            Instruction::ShiftRight { x } => {
                let vx = self.read_register(x);
                self.load_register(x, vx / 2);
                self.load_register(FLAG as u8, vx % 2);
                self.pc = self.pc + 2;
            },
            Instruction::ShiftLeft { x } => {
                let vx = self.read_register(x);
                self.load_register(x, ((vx as u16 * 2) % 256) as u8);
                self.load_register(FLAG as u8, if vx >= 128 { 1 } else { 0 });
                self.pc = self.pc + 2;
            },
            Instruction::LoadIndex { nnn } => {
                self.register_index = nnn;
                self.pc = self.pc + 2;
            },
            Instruction::Random { x, kk } => {
                self.load_register(x, random & kk);
                self.pc = self.pc + 2;
            },
            Instruction::Draw { x, y, n } => {
                let sprite = match self.memory.slice(self.register_index, n as u16) {
                    Ok(sprite) => sprite,
                    Err(e) => return Err(e),
                };
                let vx = self.read_register(x);
                let vy = self.read_register(y);
                let collision = self.display.draw_sprite(vx, vy, sprite.as_slice());
                self.load_register(FLAG as u8, if collision { 1 } else { 0 });
                self.pc = self.pc + 2;
            },
            Instruction::AddIndex { x } => {
                let sum = self.register_index as u32 + self.read_register(x) as u32;
                self.register_index = (sum % 0x10000) as u16;
                self.pc = self.pc + 2;
            },
            Instruction::StoreRegs { x } => {
                let base = self.register_index as usize;
                if base + x as usize >= MEM_SIZE {
                    return Err(CpuError::OutOfBounds(base + x as usize));
                }
                let ghost before = self@;
                assert(write_range(before.memory, base as int, before.v.take(0)) =~= before.memory);
                let mut r: usize = 0;
                while r <= x as usize
                    invariant
                        self.wf(),
                        base + x < MEM_SIZE,
                        x < NUM_REGS,
                        r <= x + 1,
                        base == before.i,
                        self@ == (Machine {
                            memory: write_range(before.memory, base as int, before.v.take(r as int)),
                            ..before
                        }),
                    decreases x + 1 - r,
                {
                    let value = self.registers[r];
                    self.memory.put(base + r, value);
                    r = r + 1;
                    assert(self@.memory =~= write_range(
                        before.memory,
                        base as int,
                        before.v.take(r as int),
                    ));
                }
                self.pc = self.pc + 2;
            },
            Instruction::LoadRegs { x } => {
                let base = self.register_index as usize;
                if base + x as usize >= MEM_SIZE {
                    return Err(CpuError::OutOfBounds(base + x as usize));
                }
                let ghost before = self@;
                assert(write_range(before.v, 0, before.memory.subrange(base as int, base as int))
                    =~= before.v);
                let mut r: usize = 0;
                while r <= x as usize
                    invariant
                        self.wf(),
                        base + x < MEM_SIZE,
                        x < NUM_REGS,
                        r <= x + 1,
                        base == before.i,
                        self@ == (Machine {
                            v: write_range(before.v, 0, before.memory.subrange(base as int, base + r)),
                            ..before
                        }),
                    decreases x + 1 - r,
                {
                    let value = self.memory.at(base + r);
                    self.registers.set(r, value);
                    r = r + 1;
                    assert(self@.v =~= write_range(
                        before.v,
                        0,
                        before.memory.subrange(base as int, base + r),
                    ));
                }
                self.pc = self.pc + 2;
            },
        }
        Ok(())
    }
}

/// The machine right after `rom` is loaded.
pub open spec fn initial_machine(rom: Seq<u8>) -> Machine {
    Machine {
        memory: write_range(initial_memory(), PROG_START as int, rom),
        screen: blank(),
        v: Seq::new(NUM_REGS as nat, |r: int| 0u8),
        i: 0,
        pc: PROG_START as u16,
        stack: Seq::new(STACK_DEPTH as nat, |r: int| 0u16),
        sp: 0,
        delay: 0,
        sound: 0,
    }
}

/// The big-endian words of `mem` from `start` on, as long as both bytes of a
/// word lie in `mem`.
pub open spec fn words_from(mem: Seq<u8>, start: int) -> Seq<u16> {
    let count = if start < mem.len() { (mem.len() - start) / 2 } else { 0 };
    Seq::new(count as nat, |k: int| word_of(mem[start + 2 * k], mem[start + 2 * k + 1]))
}

fn zeros_u8(len: usize) -> (r: Vec<u8>)
    ensures
        r@ == Seq::new(len as nat, |k: int| 0u8),
{
    let mut v: Vec<u8> = Vec::new();
    while v.len() < len
        invariant
            v@ =~= Seq::new(v@.len(), |k: int| 0u8),
            v@.len() <= len,
        decreases len - v@.len(),
    {
        v.push(0u8);
    }
    v
}

fn zeros_u16(len: usize) -> (r: Vec<u16>)
    ensures
        r@ == Seq::new(len as nat, |k: int| 0u16),
{
    let mut v: Vec<u16> = Vec::new();
    while v.len() < len
        invariant
            v@ =~= Seq::new(v@.len(), |k: int| 0u16),
            v@.len() <= len,
        decreases len - v@.len(),
    {
        v.push(0u16);
    }
    v
}

} // verus!
