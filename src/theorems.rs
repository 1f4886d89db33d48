use vstd::prelude::*;

use crate::cpu::{fetch_spec, initial_machine, machine_wf, step_spec, Machine, FLAG, STACK_DEPTH};
use crate::instruction::{kk_of, n_of, nnn_of, x_of, y_of};
use crate::mem::{font, FONT_OFFSET, MEM_SIZE, PROG_START};

verus! {

/// The operand fields of `0xG000 + x * 256 + y * 16 + n` read back as
/// `x`, `y` and `n` under group `0xG000`.
proof fn lemma_fields_of(op: u16, g: u16, x: u16, y: u16, n: u16)
    requires
        g < 16,
        x < 16,
        y < 16,
        n < 16,
        op == g * 0x1000 + x * 256 + y * 16 + n,
    ensures
        op & 0xF000 == g * 0x1000,
        x_of(op) == x,
        y_of(op) == y,
        n_of(op) == n,
        kk_of(op) == y * 16 + n,
        nnn_of(op) == x * 256 + y * 16 + n,
{
    assert(op & 0xF000 == g * 0x1000) by (bit_vector)
        requires
            g < 16 && x < 16 && y < 16 && n < 16 && op == g * 0x1000 + x * 256 + y * 16 + n,
    ;
    assert((op & 0x0F00) >> 8u16 == x) by (bit_vector)
        requires
            g < 16 && x < 16 && y < 16 && n < 16 && op == g * 0x1000 + x * 256 + y * 16 + n,
    ;
    assert((op & 0x00F0) >> 4u16 == y) by (bit_vector)
        requires
            g < 16 && x < 16 && y < 16 && n < 16 && op == g * 0x1000 + x * 256 + y * 16 + n,
    ;
    assert(op & 0x000F == n) by (bit_vector)
        requires
            g < 16 && x < 16 && y < 16 && n < 16 && op == g * 0x1000 + x * 256 + y * 16 + n,
    ;
    assert(op & 0x00FF == y * 16 + n) by (bit_vector)
        requires
            g < 16 && x < 16 && y < 16 && n < 16 && op == g * 0x1000 + x * 256 + y * 16 + n,
    ;
    assert(op & 0x0FFF == x * 256 + y * 16 + n) by (bit_vector)
        requires
            g < 16 && x < 16 && y < 16 && n < 16 && op == g * 0x1000 + x * 256 + y * 16 + n,
    ;
}

/// After loading a program of at most 0xE00 bytes, byte `i` of the program
/// sits at address 0x200 + `i`, and the font glyphs sit at 0x50 to 0x9F
/// whatever the program holds.
pub proof fn lemma_load_places_program(rom: Seq<u8>)
    requires
        rom.len() <= MEM_SIZE - PROG_START,
    ensures
        forall|i: int|
            0 <= i < rom.len() ==> #[trigger] initial_machine(rom).memory[PROG_START + i]
                == rom[i],
        initial_machine(rom).memory.subrange(FONT_OFFSET as int, FONT_OFFSET + font().len())
            == font(),
{
    let mem = initial_machine(rom).memory;
    assert(mem.subrange(FONT_OFFSET as int, FONT_OFFSET + font().len()) =~= font());
}

/// The add-with-carry instruction `8xy4` leaves `(a + b) mod 256` in `Vx`
/// and sets the flag register exactly when `a + b` exceeds 255, for every
/// pair of values `a` in `Vx` and `b` in `Vy` (`Vx` not the flag register).
pub proof fn lemma_add_with_carry(m: Machine, x: u8, y: u8, rnd: u8)
    requires
        machine_wf(m),
        x < FLAG,
        y < 16,
        fetch_spec(m) == Ok::<u16, crate::error::CpuError>((0x8004 + x * 256 + y * 16) as u16),
    ensures
        step_spec(m, rnd) matches Ok(after) && after.v[x as int] == (m.v[x as int] + m.v[y as int])
            % 256 && after.v[FLAG as int] == (if m.v[x as int] + m.v[y as int] > 255 {
            1u8
        } else {
            0u8
        }) && after.pc == m.pc + 2,
{
    let op = (0x8004 + x * 256 + y * 16) as u16;
    lemma_fields_of(op, 8, x as u16, y as u16, 4);
}

/// The subtract instruction `8xy5` leaves `(a - b) mod 256` in `Vx` and sets
/// the flag register exactly when `a >= b`, for every pair of values `a` in
/// `Vx` and `b` in `Vy` (`Vx` not the flag register).
pub proof fn lemma_subtract_with_borrow(m: Machine, x: u8, y: u8, rnd: u8)
    requires
        machine_wf(m),
        x < FLAG,
        y < 16,
        fetch_spec(m) == Ok::<u16, crate::error::CpuError>((0x8005 + x * 256 + y * 16) as u16),
    ensures
        step_spec(m, rnd) matches Ok(after) && after.v[x as int] == (m.v[x as int] - m.v[y as int])
            % 256 && after.v[FLAG as int] == (if m.v[x as int] >= m.v[y as int] {
            1u8
        } else {
            0u8
        }) && after.pc == m.pc + 2,
{
    let op = (0x8005 + x * 256 + y * 16) as u16;
    lemma_fields_of(op, 8, x as u16, y as u16, 5);
}

/// A jump `1nnn` sets the program counter to `nnn` and changes nothing else,
/// so the next fetch reads the word at `nnn`.
pub proof fn lemma_jump(m: Machine, nnn: u16, rnd: u8)
    requires
        machine_wf(m),
        nnn < 0x1000,
        fetch_spec(m) == Ok::<u16, crate::error::CpuError>((0x1000 + nnn) as u16),
    ensures
        step_spec(m, rnd) == Ok::<Machine, crate::error::CpuError>(Machine { pc: nnn, ..m }),
        fetch_spec(Machine { pc: nnn, ..m }) == (if nnn + 1 < MEM_SIZE {
            Ok::<u16, crate::error::CpuError>(
                crate::mem::word_of(m.memory[nnn as int], m.memory[nnn + 1]),
            )
        } else {
            Err(crate::error::CpuError::OutOfBounds((nnn + 1) as usize))
        }),
{
    let op = (0x1000 + nnn) as u16;
    lemma_fields_of(op, 1, nnn / 256, (nnn / 16) % 16, nnn % 16);
}

/// A call `2nnn` with room on the stack pushes the address of the
/// instruction after it and continues at `nnn`; a return met later, with the
/// stack back at the depth and top that the call left, resumes at that
/// instruction after the call with the stack as it was before the call.
pub proof fn lemma_call_then_return(m: Machine, nnn: u16, rnd: u8, later: Machine, rnd2: u8)
    requires
        machine_wf(m),
        machine_wf(later),
        nnn < 0x1000,
        m.sp < STACK_DEPTH,
        fetch_spec(m) == Ok::<u16, crate::error::CpuError>((0x2000 + nnn) as u16),
        later.sp == m.sp + 1,
        later.stack[m.sp as int] == (m.pc + 2) as u16,
        fetch_spec(later) == Ok::<u16, crate::error::CpuError>(0x00EE),
    ensures
        step_spec(m, rnd) matches Ok(called) && called.pc == nnn && called.sp == m.sp + 1
            && called.stack[m.sp as int] == m.pc + 2,
        step_spec(later, rnd2) matches Ok(back) && back.pc == m.pc + 2 && back.sp == m.sp,
{
    let op = (0x2000 + nnn) as u16;
    assert(step_spec(m, rnd) matches Ok(called) && called.pc == nnn && called.sp == m.sp + 1
        && called.stack[m.sp as int] == m.pc + 2) by {
        lemma_fields_of(op, 2, nnn / 256, (nnn / 16) % 16, nnn % 16);
        assert(m.pc + 1 < MEM_SIZE);
    }
    assert(step_spec(later, rnd2) matches Ok(back) && back.pc == m.pc + 2 && back.sp == m.sp) by {
        lemma_fields_of(0x00EE, 0, 0, 14, 14);
    }
}

/// The word 0xFFFF is no instruction: a step that fetches it fails with
/// `UnknownOpcode(0xFFFF)`, and the machine is left exactly as it was.
pub proof fn lemma_unknown_word(
    m: Machine,
    rnd: u8,
    r: Result<(), crate::error::CpuError>,
    after: Machine,
)
    requires
        machine_wf(m),
        fetch_spec(m) == Ok::<u16, crate::error::CpuError>(0xFFFF),
        crate::cpu::step_outcome(m, rnd, r, after),
    ensures
        step_spec(m, rnd) == Err::<Machine, crate::error::CpuError>(
            crate::error::CpuError::UnknownOpcode(0xFFFF),
        ),
        r == Err::<(), crate::error::CpuError>(crate::error::CpuError::UnknownOpcode(0xFFFF)),
        after == m,
{
    lemma_fields_of(0xFFFF, 15, 15, 15, 15);
}

} // verus!
