use crate::cpu::Cpu;
use vstd::prelude::*;

verus! {

/// A raw 16-bit instruction word, held as its two bytes, high byte first.
/// Decoding is pure and total: all 65536 words decode structurally, even
/// those no execution routine recognizes.
pub struct Opcode {
    instruction_bytes: (u8, u8),
}

/// Primary dispatch key: the high nibble of the word.
pub open spec fn op_family(w: (u8, u8)) -> int {
    w.0 as int / 16
}

/// Second nibble: the index of register Vx.
pub open spec fn op_x(w: (u8, u8)) -> int {
    w.0 as int % 16
}

/// Third nibble: the index of register Vy.
pub open spec fn op_y(w: (u8, u8)) -> int {
    w.1 as int / 16
}

/// Fourth nibble: the embedded 4-bit immediate.
pub open spec fn op_n(w: (u8, u8)) -> int {
    w.1 as int % 16
}

/// Low 12 bits: the embedded address operand.
pub open spec fn op_addr(w: (u8, u8)) -> int {
    (w.0 as int % 16) * 256 + w.1 as int
}

/// Low byte: the embedded 8-bit immediate.
pub open spec fn op_byte(w: (u8, u8)) -> u8 {
    w.1
}

impl View for Opcode {
    type V = (u8, u8);

    closed spec fn view(&self) -> (u8, u8) {
        self.instruction_bytes
    }
}

impl Opcode {
    /// Fetch the two instruction bytes at the program counter.
    pub fn from_cpu(cpu: &Cpu) -> (r: Self)
        requires
            cpu.wf(),
            cpu.program_counter + 1 < 4096,
        ensures
            r@.0 == cpu@.memory[cpu@.program_counter as int],
            r@.1 == cpu@.memory[cpu@.program_counter + 1],
    {
        Self { instruction_bytes: (cpu.memory[cpu.program_counter], cpu.memory[cpu.program_counter + 1]) }
    }

    /// Split a 16-bit word into its high and low bytes.
    pub fn _from_bytes(bytes: u16) -> (r: Self)
        ensures
            r@.0 == (bytes / 256) as u8,
            r@.1 == (bytes % 256) as u8,
    {
        Self { instruction_bytes: ((bytes / 256) as u8, (bytes % 256) as u8) }
    }

    /// The two raw bytes, high byte first.
    pub fn bytes(&self) -> (r: (u8, u8))
        ensures
            r == self@,
    {
        self.instruction_bytes
    }

    /// The four nibbles, high to low.
    pub fn nibbles(&self) -> (r: (u8, u8, u8, u8))
        ensures
            r.0 as int == op_family(self@),
            r.1 as int == op_x(self@),
            r.2 as int == op_y(self@),
            r.3 as int == op_n(self@),
    {
        (
            self.instruction_bytes.0 / 16,
            self.instruction_bytes.0 % 16,
            self.instruction_bytes.1 / 16,
            self.instruction_bytes.1 % 16,
        )
    }

    /// The embedded address operand: the low 12 bits of the word.
    pub fn address(&self) -> (r: u16)
        ensures
            r as int == op_addr(self@),
            r < 4096,
    {
        (self.instruction_bytes.0 as u16 % 16) * 256 + self.instruction_bytes.1 as u16
    }

    /// The index of register Vx: the second nibble.
    pub fn register_x(&self) -> (r: usize)
        ensures
            r as int == op_x(self@),
            r < 16,
    {
        (self.instruction_bytes.0 % 16) as usize
    }

    /// The index of register Vy: the third nibble.
    pub fn register_y(&self) -> (r: usize)
        ensures
            r as int == op_y(self@),
            r < 16,
    {
        (self.instruction_bytes.1 / 16) as usize
    }

    /// The embedded 8-bit immediate: the low byte.
    pub fn byte(&self) -> (r: u8)
        ensures
            r == op_byte(self@),
    {
        self.instruction_bytes.1
    }

    /// The embedded 4-bit immediate: the fourth nibble.
    pub fn nibble(&self) -> (r: u8)
        ensures
            r as int == op_n(self@),
            r < 16,
    {
        self.instruction_bytes.1 % 16
    }
}

} // verus!
