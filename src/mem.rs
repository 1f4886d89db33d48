use vstd::prelude::*;

use crate::error::CpuError;

verus! {

/// Size of the address space in bytes.
pub const MEM_SIZE: usize = 0x1000;

/// Address at which the font glyphs are stored.
pub const FONT_OFFSET: usize = 0x50;

/// Address at which programs are loaded, and where execution starts.
pub const PROG_START: usize = 0x200;

/// The sixteen hexadecimal digit glyphs, five rows of four pixels each.
pub open spec fn font() -> Seq<u8> {
    seq![
        0xF0u8, 0x90, 0x90, 0x90, 0xF0, // 0
        0x20, 0x60, 0x20, 0x20, 0x70, // 1
        0xF0, 0x10, 0xF0, 0x80, 0xF0, // 2
        0xF0, 0x10, 0xF0, 0x10, 0xF0, // 3
        0x90, 0x90, 0xF0, 0x10, 0x10, // 4
        0xF0, 0x80, 0xF0, 0x10, 0xF0, // 5
        0xF0, 0x80, 0xF0, 0x90, 0xF0, // 6
        0xF0, 0x10, 0x20, 0x40, 0x40, // 7
        0xF0, 0x90, 0xF0, 0x90, 0xF0, // 8
        0xF0, 0x90, 0xF0, 0x10, 0xF0, // 9
        0xF0, 0x90, 0xF0, 0x90, 0x90, // A
        0xE0, 0x90, 0xE0, 0x90, 0xE0, // B
        0xF0, 0x80, 0x80, 0x80, 0xF0, // C
        0xE0, 0x90, 0x90, 0x90, 0xE0, // D
        0xF0, 0x80, 0xF0, 0x80, 0xF0, // E
        0xF0, 0x80, 0xF0, 0x80, 0x80, // F
    ]
}

/// Memory as it is right after construction: zero everywhere but the font.
pub open spec fn initial_memory() -> Seq<u8> {
    Seq::new(
        MEM_SIZE as nat,
        |a: int|
            if FONT_OFFSET <= a < FONT_OFFSET + font().len() {
                font()[a - FONT_OFFSET]
            } else {
                0u8
            },
    )
}

/// `mem` with `bytes` written from address `start` on.
pub open spec fn write_range(mem: Seq<u8>, start: int, bytes: Seq<u8>) -> Seq<u8> {
    Seq::new(
        mem.len(),
        |a: int| if start <= a < start + bytes.len() { bytes[a - start] } else { mem[a] },
    )
}

/// The big-endian word made of the bytes `hi` and `lo`.
pub open spec fn word_of(hi: u8, lo: u8) -> u16 {
    (hi as u16 * 256 + lo as u16) as u16
}

/// The glyph table as bytes.
fn font_bytes() -> (r: Vec<u8>)
    ensures
        r@ == font(),
{
    let r = vec![
        0xF0u8, 0x90, 0x90, 0x90, 0xF0,
        0x20, 0x60, 0x20, 0x20, 0x70,
        0xF0, 0x10, 0xF0, 0x80, 0xF0,
        0xF0, 0x10, 0xF0, 0x10, 0xF0,
        0x90, 0x90, 0xF0, 0x10, 0x10,
        0xF0, 0x80, 0xF0, 0x10, 0xF0,
        0xF0, 0x80, 0xF0, 0x90, 0xF0,
        0xF0, 0x10, 0x20, 0x40, 0x40,
        0xF0, 0x90, 0xF0, 0x90, 0xF0,
        0xF0, 0x90, 0xF0, 0x10, 0xF0,
        0xF0, 0x90, 0xF0, 0x90, 0x90,
        0xE0, 0x90, 0xE0, 0x90, 0xE0,
        0xF0, 0x80, 0x80, 0x80, 0xF0,
        0xE0, 0x90, 0x90, 0x90, 0xE0,
        0xF0, 0x80, 0xF0, 0x80, 0xF0,
        0xF0, 0x80, 0xF0, 0x80, 0x80,
    ];
    assert(r@ =~= font());
    r
}


/// The 4096-byte address space.
pub struct Memory {
    bytes: Vec<u8>,
}

impl View for Memory {
    type V = Seq<u8>;

    closed spec fn view(&self) -> Seq<u8> {
        self.bytes@
    }
}

impl Memory {
    /// Every address exists: the store holds exactly 4096 bytes.
    pub open spec fn wf(&self) -> bool {
        self@.len() == MEM_SIZE
    }

    /// Memory holding the font glyphs at 0x50 and zero everywhere else.
    pub fn new() -> (m: Memory)
        ensures
            m.wf(),
            m@ == initial_memory(),
    {
        let mut bytes: Vec<u8> = Vec::new();
        let mut a: usize = 0;
        while a < MEM_SIZE
            invariant
                a <= MEM_SIZE,
                bytes@.len() == a,
                forall|i: int| 0 <= i < a ==> bytes@[i] == 0u8,
            decreases MEM_SIZE - a,
        {
            bytes.push(0u8);
            a = a + 1;
        }
        let glyphs = font_bytes();
        let mut k: usize = 0;
        while k < glyphs.len()
            invariant
                glyphs@ == font(),
                k <= glyphs@.len(),
                bytes@.len() == MEM_SIZE,
                forall|i: int|
                    0 <= i < MEM_SIZE ==> bytes@[i] == (if FONT_OFFSET <= i < FONT_OFFSET + k {
                        font()[i - FONT_OFFSET]
                    } else {
                        0u8
                    }),
            decreases glyphs@.len() - k,
        {
            bytes.set(FONT_OFFSET + k, glyphs[k]);
            k = k + 1;
        }
        let m = Memory { bytes };
        assert(m@ =~= initial_memory());
        m
    }

    /// Writes `program` from address 0x200 on. Fails, changing nothing, when
    /// it would run past the end of memory.
    pub fn load(&mut self, program: &[u8]) -> (r: Result<(), CpuError>)
        requires
            old(self).wf(),
        ensures
            final(self).wf(),
            PROG_START + program@.len() > MEM_SIZE ==> r == Err::<(), CpuError>(
                CpuError::ProgramTooLarge,
            ) && final(self)@ == old(self)@,
            PROG_START + program@.len() <= MEM_SIZE ==> r is Ok && final(self)@ == write_range(
                old(self)@,
                PROG_START as int,
                program@,
            ),
    {
        if program.len() > MEM_SIZE - PROG_START {
            return Err(CpuError::ProgramTooLarge);
        }
        let mut k: usize = 0;
        while k < program.len()
            invariant
                PROG_START + program@.len() <= MEM_SIZE,
                k <= program@.len(),
                self@.len() == MEM_SIZE,
                self@ == write_range(old(self)@, PROG_START as int, program@.subrange(0, k as int)),
            decreases program@.len() - k,
        {
            self.bytes.set(PROG_START + k, program[k]);
            k = k + 1;
            assert(self@ =~= write_range(
                old(self)@,
                PROG_START as int,
                program@.subrange(0, k as int),
            ));
        }
        assert(program@.subrange(0, k as int) =~= program@);
        Ok(())
    }

    /// The byte at `addr`.
    pub fn read_byte(&self, addr: usize) -> (r: Result<u8, CpuError>)
        requires
            self.wf(),
        ensures
            addr < MEM_SIZE ==> r == Ok::<u8, CpuError>(self@[addr as int]),
            addr >= MEM_SIZE ==> r == Err::<u8, CpuError>(CpuError::OutOfBounds(addr)),
    {
        if addr < MEM_SIZE {
            Ok(self.bytes[addr])
        } else {
            Err(CpuError::OutOfBounds(addr))
        }
    }

    /// Stores `value` at `addr`; out of range, fails and changes nothing.
    pub fn write_byte(&mut self, addr: usize, value: u8) -> (r: Result<(), CpuError>)
        requires
            old(self).wf(),
        ensures
            final(self).wf(),
            addr < MEM_SIZE ==> r is Ok && final(self)@ == old(self)@.update(addr as int, value),
            addr >= MEM_SIZE ==> r == Err::<(), CpuError>(CpuError::OutOfBounds(addr))
                && final(self)@ == old(self)@,
    {
        if addr < MEM_SIZE {
            self.bytes.set(addr, value);
            Ok(())
        } else {
            Err(CpuError::OutOfBounds(addr))
        }
    }

    /// The big-endian word at `addr` and `addr + 1`. Fails with the first
    /// address that lies outside memory.
    pub fn read_instruction_word(&self, addr: u16) -> (r: Result<u16, CpuError>)
        requires
            self.wf(),
        ensures
            addr + 1 < MEM_SIZE ==> r == Ok::<u16, CpuError>(
                word_of(self@[addr as int], self@[addr + 1]),
            ),
            addr + 1 >= MEM_SIZE ==> r == Err::<u16, CpuError>(
                CpuError::OutOfBounds(if addr < MEM_SIZE { (addr + 1) as usize } else { addr as usize }),
            ),
    {
        let a = addr as usize;
        if a >= MEM_SIZE {
            return Err(CpuError::OutOfBounds(a));
        }
        if a + 1 >= MEM_SIZE {
            return Err(CpuError::OutOfBounds(a + 1));
        }
        Ok(fuse(self.bytes[a], self.bytes[a + 1]))
    }

    /// The byte at `addr`, which lies in memory.
    pub(crate) fn at(&self, addr: usize) -> (r: u8)
        requires
            self.wf(),
            addr < MEM_SIZE,
        ensures
            r == self@[addr as int],
    {
        self.bytes[addr]
    }

    /// Stores `value` at `addr`, which lies in memory.
    pub(crate) fn put(&mut self, addr: usize, value: u8)
        requires
            old(self).wf(),
            addr < MEM_SIZE,
        ensures
            final(self)@ == old(self)@.update(addr as int, value),
    {
        self.bytes.set(addr, value);
    }

    /// A copy of the `length` bytes from `start` on.
    pub fn slice(&self, start: u16, length: u16) -> (r: Result<Vec<u8>, CpuError>)
        requires
            self.wf(),
        ensures
            start + length <= MEM_SIZE ==> r is Ok && r->Ok_0@ == self@.subrange(
                start as int,
                start + length,
            ),
            start + length > MEM_SIZE ==> r == Err::<Vec<u8>, CpuError>(
                CpuError::OutOfBounds((start + length - 1) as usize),
            ),
    {
        let end = start as usize + length as usize;
        if end > MEM_SIZE {
            return Err(CpuError::OutOfBounds(end - 1));
        }
        let mut out: Vec<u8> = Vec::new();
        let mut a: usize = start as usize;
        while a < end
            invariant
                start as usize <= a <= end <= MEM_SIZE,
                self@.len() == MEM_SIZE,
                out@ == self@.subrange(start as int, a as int),
            decreases end - a,
        {
            out.push(self.bytes[a]);
            a = a + 1;
            assert(out@ =~= self@.subrange(start as int, a as int));
        }
        Ok(out)
    }
}

/// The big-endian word made of `hi` and `lo`.
pub fn fuse(hi: u8, lo: u8) -> (r: u16)
    ensures
        r == word_of(hi, lo),
{
    (hi as u16) * 256 + (lo as u16)
}

} // verus!
