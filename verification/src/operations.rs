use crate::cpu::Cpu;
use crate::error::Error;
use crate::opcode::{op_addr, op_byte, op_n, op_x, op_y, Opcode};
use crate::operation_map::{function_from_instruction, spec_operation, Operation};
use crate::state::{wf_state, CpuState};
use rand::Rng;
use vstd::pervasive::VecAdditionalExecFns;
use vstd::prelude::*;

verus! {

// ---------------------------------------------------------------------------
// 8-bit arithmetic with explicit wraparound: the domain behaviour of the
// register instructions, never an error.
// ---------------------------------------------------------------------------

/// 8-bit sum, wrapping.
pub open spec fn wrap_add8(a: u8, b: u8) -> u8 {
    ((a + b) % 256) as u8
}

/// Carry flag of an 8-bit sum: 1 exactly when a + b > 255.
pub open spec fn carry8(a: u8, b: u8) -> u8 {
    if a + b > 255 {
        1u8
    } else {
        0u8
    }
}

/// 8-bit difference, wrapping.
pub open spec fn wrap_sub8(a: u8, b: u8) -> u8 {
    ((a + 256 - b) % 256) as u8
}

/// Not-borrow flag of an 8-bit difference: 1 exactly when no borrow occurs.
pub open spec fn no_borrow8(a: u8, b: u8) -> u8 {
    if a >= b {
        1u8
    } else {
        0u8
    }
}

// ---------------------------------------------------------------------------
// Per-instruction state transitions, each a pure function from the machine
// state (and the instruction word) to the next state. Flag writes happen
// before result writes, so an instruction whose Vx is the flag register
// overwrites its own flag, exactly as the routines below do.
// ---------------------------------------------------------------------------

/// `clear display`: every pixel off, redraw signalled.
pub open spec fn spec_clear_display(s: CpuState) -> CpuState {
    CpuState { display: Seq::new(2048, |i: int| 0u8), redraw_flag: true, ..s }
}

/// `return`: the program counter from the top stack slot, then pop.
pub open spec fn spec_return(s: CpuState) -> CpuState {
    CpuState {
        program_counter: s.stack[s.stack_pointer as int] as usize,
        stack_pointer: (s.stack_pointer - 1) as usize,
        ..s
    }
}

/// `jump addr`: the target, pre-compensated by 2 for the driver's uniform +2.
pub open spec fn spec_jump(s: CpuState, w: (u8, u8)) -> CpuState {
    CpuState { program_counter: (op_addr(w) - 2) as usize, ..s }
}

/// `call addr`: push the program counter above the stack pointer, then jump
/// (pre-compensated by 2).
pub open spec fn spec_call(s: CpuState, w: (u8, u8)) -> CpuState {
    CpuState {
        stack_pointer: (s.stack_pointer + 1) as usize,
        stack: s.stack.update(s.stack_pointer + 1, s.program_counter as u16),
        program_counter: (op_addr(w) - 2) as usize,
        ..s
    }
}

/// `skip-if-eq Vx,byte`: advance an extra instruction when Vx equals the byte.
pub open spec fn spec_skip_if_equal(s: CpuState, w: (u8, u8)) -> CpuState {
    if s.register[op_x(w)] == op_byte(w) {
        CpuState { program_counter: (s.program_counter + 2) as usize, ..s }
    } else {
        s
    }
}

/// `skip-if-ne Vx,byte`.
pub open spec fn spec_skip_not_equal(s: CpuState, w: (u8, u8)) -> CpuState {
    if s.register[op_x(w)] != op_byte(w) {
        CpuState { program_counter: (s.program_counter + 2) as usize, ..s }
    } else {
        s
    }
}

/// `skip-if-eq Vx,Vy`.
pub open spec fn spec_skip_equal_registers(s: CpuState, w: (u8, u8)) -> CpuState {
    if s.register[op_x(w)] == s.register[op_y(w)] {
        CpuState { program_counter: (s.program_counter + 2) as usize, ..s }
    } else {
        s
    }
}

/// `skip-if-ne Vx,Vy`.
pub open spec fn spec_skip_not_equal_registers(s: CpuState, w: (u8, u8)) -> CpuState {
    if s.register[op_x(w)] != s.register[op_y(w)] {
        CpuState { program_counter: (s.program_counter + 2) as usize, ..s }
    } else {
        s
    }
}

/// `load Vx,byte`.
pub open spec fn spec_load_byte(s: CpuState, w: (u8, u8)) -> CpuState {
    CpuState { register: s.register.update(op_x(w), op_byte(w)), ..s }
}

/// `add Vx,byte`: wrapping sum; the flag register reports the carry.
pub open spec fn spec_add_byte(s: CpuState, w: (u8, u8)) -> CpuState {
    let a = s.register[op_x(w)];
    let b = op_byte(w);
    CpuState {
        register: s.register.update(15, carry8(a, b)).update(op_x(w), wrap_add8(a, b)),
        ..s
    }
}

/// `load Vx,Vy`.
pub open spec fn spec_load_register(s: CpuState, w: (u8, u8)) -> CpuState {
    CpuState { register: s.register.update(op_x(w), s.register[op_y(w)]), ..s }
}

/// `or Vx,Vy`.
pub open spec fn spec_bitwise_or(s: CpuState, w: (u8, u8)) -> CpuState {
    CpuState { register: s.register.update(op_x(w), s.register[op_x(w)] | s.register[op_y(w)]), ..s }
}

/// `and Vx,Vy`.
pub open spec fn spec_bitwise_and(s: CpuState, w: (u8, u8)) -> CpuState {
    CpuState { register: s.register.update(op_x(w), s.register[op_x(w)] & s.register[op_y(w)]), ..s }
}

/// `xor Vx,Vy`.
pub open spec fn spec_bitwise_xor(s: CpuState, w: (u8, u8)) -> CpuState {
    CpuState { register: s.register.update(op_x(w), s.register[op_x(w)] ^ s.register[op_y(w)]), ..s }
}

/// `add Vx,Vy`: wrapping 8-bit sum; the flag register reports the carry.
pub open spec fn spec_add_registers(s: CpuState, w: (u8, u8)) -> CpuState {
    let a = s.register[op_x(w)];
    let b = s.register[op_y(w)];
    CpuState {
        register: s.register.update(15, carry8(a, b)).update(op_x(w), wrap_add8(a, b)),
        ..s
    }
}

/// `sub Vx,Vy`: wrapping difference; the flag register reports not-borrow.
pub open spec fn spec_subtract_registers(s: CpuState, w: (u8, u8)) -> CpuState {
    let a = s.register[op_x(w)];
    let b = s.register[op_y(w)];
    CpuState {
        register: s.register.update(15, no_borrow8(a, b)).update(op_x(w), wrap_sub8(a, b)),
        ..s
    }
}

/// `shift-right Vx`: the flag register takes the least significant bit first;
/// the shifted value then reads the register again, so a shift of the flag
/// register itself shifts the just-written bit.
pub open spec fn spec_shift_right(s: CpuState, w: (u8, u8)) -> CpuState {
    let r1 = s.register.update(15, (s.register[op_x(w)] as int % 2) as u8);
    CpuState { register: r1.update(op_x(w), (r1[op_x(w)] as int / 2) as u8), ..s }
}

/// `sub-negative Vx,Vy`: Vx becomes Vy - Vx, wrapping; the flag register
/// reports not-borrow of that difference.
pub open spec fn spec_subtract_negative(s: CpuState, w: (u8, u8)) -> CpuState {
    let a = s.register[op_y(w)];
    let b = s.register[op_x(w)];
    CpuState {
        register: s.register.update(15, no_borrow8(a, b)).update(op_x(w), wrap_sub8(a, b)),
        ..s
    }
}

/// `shift-left Vx`: the flag register takes the most significant bit first;
/// the shifted value then reads the register again.
pub open spec fn spec_shift_left(s: CpuState, w: (u8, u8)) -> CpuState {
    let r1 = s.register.update(15, (s.register[op_x(w)] as int / 128) as u8);
    CpuState { register: r1.update(op_x(w), (r1[op_x(w)] as int * 2 % 256) as u8), ..s }
}

/// `load I,addr`.
pub open spec fn spec_load_register_i(s: CpuState, w: (u8, u8)) -> CpuState {
    CpuState { register_i: op_addr(w) as u16, ..s }
}

/// `jump V0+addr`: no pre-compensation, exactly as the routine behaves.
pub open spec fn spec_jump_register_0(s: CpuState, w: (u8, u8)) -> CpuState {
    CpuState { program_counter: (s.register[0] + op_addr(w)) as usize, ..s }
}

/// `random Vx,byte` with the drawn byte made explicit: the register takes the
/// AND of the drawn byte and the mask.
pub open spec fn spec_random_byte(s: CpuState, w: (u8, u8), drawn: u8) -> CpuState {
    CpuState { register: s.register.update(op_x(w), drawn & op_byte(w)), ..s }
}

/// One sprite bit XORed into the framebuffer: the result after the first `j`
/// of the row's 8 bits (most significant first) are applied. The pixel index
/// wraps on the linear index modulo 2048, not per axis — the behaviour this
/// machine defines. The collision flag is sticky: once 1, it stays 1.
pub open spec fn spec_draw_cols(
    disp: Seq<u8>,
    vf: u8,
    row: u8,
    sx: int,
    row_y: int,
    j: int,
) -> (Seq<u8>, u8)
    decreases j,
{
    if j <= 0 {
        (disp, vf)
    } else {
        let prev = spec_draw_cols(disp, vf, row, sx, row_y, j - 1);
        let x = j - 1;
        let bit = (row >> ((7 - x) as u8)) & 1;
        let coord = (row_y * 64 + sx + x) % 2048;
        if bit == 1 {
            (
                prev.0.update(coord, prev.0[coord] ^ 1),
                if prev.0[coord] == 1 {
                    1u8
                } else {
                    prev.1
                },
            )
        } else {
            prev
        }
    }
}

/// The framebuffer and collision flag after the first `k` sprite rows, each
/// row read from memory at `base + row index`.
pub open spec fn spec_draw_rows(
    disp: Seq<u8>,
    vf: u8,
    mem: Seq<u8>,
    base: int,
    sx: int,
    sy: int,
    k: int,
) -> (Seq<u8>, u8)
    decreases k,
{
    if k <= 0 {
        (disp, vf)
    } else {
        let prev = spec_draw_rows(disp, vf, mem, base, sx, sy, k - 1);
        spec_draw_cols(prev.0, prev.1, mem[base + k - 1], sx, sy + k - 1, 8)
    }
}

/// `draw Vx,Vy,n`: the flag register is reset first (so a sprite anchored at
/// the flag register reads 0), n rows are XORed in, the flag register ends 1
/// exactly when some lit pixel was hit, and redraw is signalled.
pub open spec fn spec_draw(s: CpuState, w: (u8, u8)) -> CpuState {
    let regs0 = s.register.update(15, 0u8);
    let sx = regs0[op_x(w)] as int;
    let sy = regs0[op_y(w)] as int;
    let res = spec_draw_rows(s.display, 0u8, s.memory, s.register_i as int, sx, sy, op_n(w));
    CpuState { display: res.0, register: regs0.update(15, res.1), redraw_flag: true, ..s }
}

/// `skip-if-key Vx`.
pub open spec fn spec_skip_if_key(s: CpuState, w: (u8, u8)) -> CpuState {
    if s.keypad[s.register[op_x(w)] as int] {
        CpuState { program_counter: (s.program_counter + 2) as usize, ..s }
    } else {
        s
    }
}

/// `skip-if-not-key Vx`.
pub open spec fn spec_skip_if_not_key(s: CpuState, w: (u8, u8)) -> CpuState {
    if !s.keypad[s.register[op_x(w)] as int] {
        CpuState { program_counter: (s.program_counter + 2) as usize, ..s }
    } else {
        s
    }
}

/// `Vx <- delay_timer`.
pub open spec fn spec_read_delay_timer(s: CpuState, w: (u8, u8)) -> CpuState {
    CpuState { register: s.register.update(op_x(w), s.delay_timer), ..s }
}

/// `wait-for-key Vx`: suspend, recording the destination register.
pub open spec fn spec_wait_for_key(s: CpuState, w: (u8, u8)) -> CpuState {
    CpuState { keypad_waiting: true, keypad_waiting_register: op_x(w) as u8, ..s }
}

/// `delay_timer <- Vx`.
pub open spec fn spec_set_delay_timer(s: CpuState, w: (u8, u8)) -> CpuState {
    CpuState { delay_timer: s.register[op_x(w)], ..s }
}

/// `sound_timer <- Vx`.
pub open spec fn spec_set_sound_timer(s: CpuState, w: (u8, u8)) -> CpuState {
    CpuState { sound_timer: s.register[op_x(w)], ..s }
}

/// `register_i += Vx`: 16-bit sum, no flag produced.
pub open spec fn spec_add_register_i(s: CpuState, w: (u8, u8)) -> CpuState {
    CpuState { register_i: (s.register_i + s.register[op_x(w)]) as u16, ..s }
}

/// `register_i <- sprite_address(Vx)`: each glyph is 5 bytes from address 0.
pub open spec fn spec_sprite_address(s: CpuState, w: (u8, u8)) -> CpuState {
    CpuState { register_i: (s.register[op_x(w)] * 5) as u16, ..s }
}

/// `store-BCD Vx`: the decimal digits of Vx, hundreds first, at I, I+1, I+2.
pub open spec fn spec_store_register_x(s: CpuState, w: (u8, u8)) -> CpuState {
    let v = s.register[op_x(w)] as int;
    let i = s.register_i as int;
    CpuState {
        memory: s.memory.update(i, (v / 100) as u8).update(i + 1, ((v / 10) % 10) as u8).update(
            i + 2,
            (v % 10) as u8,
        ),
        ..s
    }
}

/// `store-registers Vx`: V0 through Vx inclusive into memory at I.
pub open spec fn spec_store_registers(s: CpuState, w: (u8, u8)) -> CpuState {
    let x = op_x(w);
    let i = s.register_i as int;
    CpuState {
        memory: Seq::new(
            s.memory.len(),
            |j: int|
                if i <= j <= i + x {
                    s.register[j - i]
                } else {
                    s.memory[j]
                },
        ),
        ..s
    }
}

/// `read-registers Vx`: memory at I into V0 through Vx inclusive.
pub open spec fn spec_read_registers(s: CpuState, w: (u8, u8)) -> CpuState {
    let x = op_x(w);
    let i = s.register_i as int;
    CpuState {
        register: Seq::new(
            s.register.len(),
            |j: int|
                if 0 <= j <= x {
                    s.memory[i + j]
                } else {
                    s.register[j]
                },
        ),
        ..s
    }
}

// ---------------------------------------------------------------------------
// Execution routines: one per instruction semantic, each proved equal to its
// transition above.
// ---------------------------------------------------------------------------

/// Zero the whole display grid and signal redraw.
pub fn clear_display(cpu: &mut Cpu, _ins: &Opcode)
    requires
        old(cpu).wf(),
    ensures
        final(cpu).wf(),
        final(cpu)@ == spec_clear_display(old(cpu)@),
{
    let mut i: usize = 0;
    while i < 2048
        invariant
            i <= 2048,
            cpu@ == (CpuState { display: cpu@.display, ..old(cpu)@ }),
            cpu@.display.len() == 2048,
            forall|j: int| 0 <= j < i ==> cpu@.display[j] == 0,
        decreases 2048 - i,
    {
        cpu.display.set(i, 0);
        i += 1;
    }
    cpu.redraw_flag = true;
    proof {
        assert(cpu@.display =~= Seq::new(2048, |j: int| 0u8));
    }
}

/// Pop: the program counter from the top stack slot, then the pointer down.
pub fn return_from_subroutine(cpu: &mut Cpu, _ins: &Opcode)
    requires
        old(cpu).wf(),
        old(cpu).stack_pointer >= 1,
    ensures
        final(cpu).wf(),
        final(cpu)@ == spec_return(old(cpu)@),
{
    cpu.program_counter = cpu.stack[cpu.stack_pointer] as usize;
    cpu.stack_pointer = cpu.stack_pointer - 1;
}

/// Set the program counter to the target, pre-compensated by 2 so the cycle
/// driver's uniform +2 lands on the target.
pub fn jump_to_address(cpu: &mut Cpu, ins: &Opcode)
    requires
        old(cpu).wf(),
        op_addr(ins@) >= 2,
    ensures
        final(cpu).wf(),
        final(cpu)@ == spec_jump(old(cpu)@, ins@),
{
    cpu.program_counter = (ins.address() - 2) as usize;
}

/// Push the program counter, then jump to the target (pre-compensated by 2).
pub fn call_subroutine(cpu: &mut Cpu, ins: &Opcode)
    requires
        old(cpu).wf(),
        old(cpu).stack_pointer < 15,
        old(cpu).program_counter <= 0xffff,
        op_addr(ins@) >= 2,
    ensures
        final(cpu).wf(),
        final(cpu)@ == spec_call(old(cpu)@, ins@),
{
    cpu.stack_pointer = cpu.stack_pointer + 1;
    cpu.stack.set(cpu.stack_pointer, cpu.program_counter as u16);
    cpu.program_counter = (ins.address() - 2) as usize;
}

/// Skip the next instruction when Vx equals the immediate byte.
pub fn skip_if_equal(cpu: &mut Cpu, ins: &Opcode)
    requires
        old(cpu).wf(),
        old(cpu).program_counter + 2 <= usize::MAX,
    ensures
        final(cpu).wf(),
        final(cpu)@ == spec_skip_if_equal(old(cpu)@, ins@),
{
    if cpu.register[ins.register_x()] == ins.byte() {
        cpu.program_counter = cpu.program_counter + 2;
    }
}

/// Skip the next instruction when Vx differs from the immediate byte.
pub fn skip_not_equal(cpu: &mut Cpu, ins: &Opcode)
    requires
        old(cpu).wf(),
        old(cpu).program_counter + 2 <= usize::MAX,
    ensures
        final(cpu).wf(),
        final(cpu)@ == spec_skip_not_equal(old(cpu)@, ins@),
{
    if cpu.register[ins.register_x()] != ins.byte() {
        cpu.program_counter = cpu.program_counter + 2;
    }
}

/// Skip the next instruction when Vx equals Vy.
pub fn skip_equal_registers(cpu: &mut Cpu, ins: &Opcode)
    requires
        old(cpu).wf(),
        old(cpu).program_counter + 2 <= usize::MAX,
    ensures
        final(cpu).wf(),
        final(cpu)@ == spec_skip_equal_registers(old(cpu)@, ins@),
{
    if cpu.register[ins.register_x()] == cpu.register[ins.register_y()] {
        cpu.program_counter = cpu.program_counter + 2;
    }
}

/// Store the immediate byte in Vx.
pub fn load_byte(cpu: &mut Cpu, ins: &Opcode)
    requires
        old(cpu).wf(),
    ensures
        final(cpu).wf(),
        final(cpu)@ == spec_load_byte(old(cpu)@, ins@),
{
    cpu.register.set(ins.register_x(), ins.byte());
}

/// Vx += byte, wrapping; the flag register becomes 1 exactly when the true
/// sum exceeds 255, else 0.
pub fn add_byte(cpu: &mut Cpu, ins: &Opcode)
    requires
        old(cpu).wf(),
    ensures
        final(cpu).wf(),
        final(cpu)@ == spec_add_byte(old(cpu)@, ins@),
{
    let x = ins.register_x();
    let a = cpu.register[x];
    let b = ins.byte();
    let sum = a as u16 + b as u16;
    cpu.register.set(0xf, if sum > 255 { 1 } else { 0 });
    cpu.register.set(x, (sum % 256) as u8);
}

/// Vx = Vy.
pub fn load_register(cpu: &mut Cpu, ins: &Opcode)
    requires
        old(cpu).wf(),
    ensures
        final(cpu).wf(),
        final(cpu)@ == spec_load_register(old(cpu)@, ins@),
{
    let v = cpu.register[ins.register_y()];
    cpu.register.set(ins.register_x(), v);
}

/// Vx |= Vy.
pub fn bitwise_or(cpu: &mut Cpu, ins: &Opcode)
    requires
        old(cpu).wf(),
    ensures
        final(cpu).wf(),
        final(cpu)@ == spec_bitwise_or(old(cpu)@, ins@),
{
    let v = cpu.register[ins.register_x()] | cpu.register[ins.register_y()];
    cpu.register.set(ins.register_x(), v);
}

/// Vx &= Vy.
pub fn bitwise_and(cpu: &mut Cpu, ins: &Opcode)
    requires
        old(cpu).wf(),
    ensures
        final(cpu).wf(),
        final(cpu)@ == spec_bitwise_and(old(cpu)@, ins@),
{
    let v = cpu.register[ins.register_x()] & cpu.register[ins.register_y()];
    cpu.register.set(ins.register_x(), v);
}

/// Vx ^= Vy.
pub fn bitwise_xor(cpu: &mut Cpu, ins: &Opcode)
    requires
        old(cpu).wf(),
    ensures
        final(cpu).wf(),
        final(cpu)@ == spec_bitwise_xor(old(cpu)@, ins@),
{
    let v = cpu.register[ins.register_x()] ^ cpu.register[ins.register_y()];
    cpu.register.set(ins.register_x(), v);
}

/// Vx += Vy, wrapping 8-bit; the flag register becomes 1 exactly when the
/// true sum exceeds 255, else 0.
pub fn add_registers(cpu: &mut Cpu, ins: &Opcode)
    requires
        old(cpu).wf(),
    ensures
        final(cpu).wf(),
        final(cpu)@ == spec_add_registers(old(cpu)@, ins@),
{
    let x = ins.register_x();
    let a = cpu.register[x];
    let b = cpu.register[ins.register_y()];
    let sum = a as u16 + b as u16;
    cpu.register.set(0xf, if sum > 255 { 1 } else { 0 });
    cpu.register.set(x, (sum % 256) as u8);
}

/// Vx -= Vy, wrapping; the flag register reports not-borrow: 1 exactly when
/// Vx >= Vy before the subtraction, else 0.
pub fn subtract_registers(cpu: &mut Cpu, ins: &Opcode)
    requires
        old(cpu).wf(),
    ensures
        final(cpu).wf(),
        final(cpu)@ == spec_subtract_registers(old(cpu)@, ins@),
{
    let x = ins.register_x();
    let a = cpu.register[x];
    let b = cpu.register[ins.register_y()];
    cpu.register.set(0xf, if a >= b { 1 } else { 0 });
    cpu.register.set(x, (((a as u16 + 256) - b as u16) % 256) as u8);
}

/// Vx >>= 1; the flag register takes the least significant bit beforehand.
pub fn shift_right(cpu: &mut Cpu, ins: &Opcode)
    requires
        old(cpu).wf(),
    ensures
        final(cpu).wf(),
        final(cpu)@ == spec_shift_right(old(cpu)@, ins@),
{
    let x = ins.register_x();
    let lsb = cpu.register[x] % 2;
    cpu.register.set(0xf, lsb);
    let v = cpu.register[x];
    cpu.register.set(x, v / 2);
}

/// Vx = Vy - Vx, wrapping; the flag register reports not-borrow of that
/// difference.
pub fn subtract_negative(cpu: &mut Cpu, ins: &Opcode)
    requires
        old(cpu).wf(),
    ensures
        final(cpu).wf(),
        final(cpu)@ == spec_subtract_negative(old(cpu)@, ins@),
{
    let x = ins.register_x();
    let a = cpu.register[ins.register_y()];
    let b = cpu.register[x];
    cpu.register.set(0xf, if a >= b { 1 } else { 0 });
    cpu.register.set(x, (((a as u16 + 256) - b as u16) % 256) as u8);
}

/// Vx <<= 1, low 8 bits kept; the flag register takes the most significant
/// bit beforehand.
pub fn shift_left(cpu: &mut Cpu, ins: &Opcode)
    requires
        old(cpu).wf(),
    ensures
        final(cpu).wf(),
        final(cpu)@ == spec_shift_left(old(cpu)@, ins@),
{
    let x = ins.register_x();
    let msb = cpu.register[x] / 128;
    cpu.register.set(0xf, msb);
    let v = cpu.register[x];
    cpu.register.set(x, ((v as u16 * 2) % 256) as u8);
}

/// Skip the next instruction when Vx differs from Vy.
pub fn skip_not_equal_registers(cpu: &mut Cpu, ins: &Opcode)
    requires
        old(cpu).wf(),
        old(cpu).program_counter + 2 <= usize::MAX,
    ensures
        final(cpu).wf(),
        final(cpu)@ == spec_skip_not_equal_registers(old(cpu)@, ins@),
{
    if cpu.register[ins.register_x()] != cpu.register[ins.register_y()] {
        cpu.program_counter = cpu.program_counter + 2;
    }
}

/// register_i <- addr.
pub fn load_register_i(cpu: &mut Cpu, ins: &Opcode)
    requires
        old(cpu).wf(),
    ensures
        final(cpu).wf(),
        final(cpu)@ == spec_load_register_i(old(cpu)@, ins@),
{
    cpu.register_i = ins.address();
}

/// Program counter <- V0 + addr (not pre-compensated, exactly as the machine
/// defines this one jump).
pub fn jump_register_0(cpu: &mut Cpu, ins: &Opcode)
    requires
        old(cpu).wf(),
    ensures
        final(cpu).wf(),
        final(cpu)@ == spec_jump_register_0(old(cpu)@, ins@),
{
    cpu.program_counter = (cpu.register[0] as u16 + ins.address()) as usize;
}

/// Relies on rand::thread_rng and rand::Rng::gen_range over `0..=255`: a
/// random byte, sampled afresh on every call. Nothing is promised of the
/// value; callers state what holds of every outcome.
#[verifier::external_body]
fn next_random_byte() -> u8 {
    let mut rng = rand::thread_rng();
    rng.gen_range(0..=255)
}

/// `random Vx,byte`: a random byte ANDed with the mask byte, stored in Vx.
/// Whatever byte was drawn, the stored value has no bit outside the mask.
pub fn random_byte(cpu: &mut Cpu, ins: &Opcode)
    requires
        old(cpu).wf(),
    ensures
        final(cpu).wf(),
        exists|drawn: u8| final(cpu)@ == spec_random_byte(old(cpu)@, ins@, drawn),
        final(cpu)@.register[op_x(ins@)] & !op_byte(ins@) == 0,
{
    let drawn = next_random_byte();
    let masked = drawn & ins.byte();
    cpu.register.set(ins.register_x(), masked);
    proof {
        assert(cpu@ == spec_random_byte(old(cpu)@, ins@, drawn));
        let m = op_byte(ins@);
        assert((drawn & m) & !m == 0) by (bit_vector);
    }
}

/// Skip the next instruction when the key numbered by Vx is pressed.
pub fn skip_if_key(cpu: &mut Cpu, ins: &Opcode)
    requires
        old(cpu).wf(),
        old(cpu)@.register[op_x(ins@)] < 16,
        old(cpu).program_counter + 2 <= usize::MAX,
    ensures
        final(cpu).wf(),
        final(cpu)@ == spec_skip_if_key(old(cpu)@, ins@),
{
    if cpu.keypad[cpu.register[ins.register_x()] as usize] {
        cpu.program_counter = cpu.program_counter + 2;
    }
}

/// Skip the next instruction when the key numbered by Vx is not pressed.
pub fn skip_if_not_key(cpu: &mut Cpu, ins: &Opcode)
    requires
        old(cpu).wf(),
        old(cpu)@.register[op_x(ins@)] < 16,
        old(cpu).program_counter + 2 <= usize::MAX,
    ensures
        final(cpu).wf(),
        final(cpu)@ == spec_skip_if_not_key(old(cpu)@, ins@),
{
    if !cpu.keypad[cpu.register[ins.register_x()] as usize] {
        cpu.program_counter = cpu.program_counter + 2;
    }
}

/// Vx <- delay_timer.
pub fn set_register_to_delay_timer(cpu: &mut Cpu, ins: &Opcode)
    requires
        old(cpu).wf(),
    ensures
        final(cpu).wf(),
        final(cpu)@ == spec_read_delay_timer(old(cpu)@, ins@),
{
    let v = cpu.delay_timer;
    cpu.register.set(ins.register_x(), v);
}

/// Enter the keyboard-wait sub-state, recording the destination register.
pub fn wait_for_key(cpu: &mut Cpu, ins: &Opcode)
    requires
        old(cpu).wf(),
    ensures
        final(cpu).wf(),
        final(cpu)@ == spec_wait_for_key(old(cpu)@, ins@),
{
    cpu.keypad_waiting = true;
    cpu.keypad_waiting_register = ins.register_x() as u8;
}

/// delay_timer <- Vx.
pub fn set_delay_timer(cpu: &mut Cpu, ins: &Opcode)
    requires
        old(cpu).wf(),
    ensures
        final(cpu).wf(),
        final(cpu)@ == spec_set_delay_timer(old(cpu)@, ins@),
{
    cpu.delay_timer = cpu.register[ins.register_x()];
}

/// sound_timer <- Vx.
pub fn set_sound_timer(cpu: &mut Cpu, ins: &Opcode)
    requires
        old(cpu).wf(),
    ensures
        final(cpu).wf(),
        final(cpu)@ == spec_set_sound_timer(old(cpu)@, ins@),
{
    cpu.sound_timer = cpu.register[ins.register_x()];
}

/// register_i += Vx: 16-bit sum, no flag produced.
pub fn add_register_i(cpu: &mut Cpu, ins: &Opcode)
    requires
        old(cpu).wf(),
        old(cpu).register_i + old(cpu)@.register[op_x(ins@)] <= 0xffff,
    ensures
        final(cpu).wf(),
        final(cpu)@ == spec_add_register_i(old(cpu)@, ins@),
{
    cpu.register_i = cpu.register_i + cpu.register[ins.register_x()] as u16;
}

/// register_i <- the glyph-table address of the digit in Vx (5 bytes each).
pub fn set_register_i_to_sprite(cpu: &mut Cpu, ins: &Opcode)
    requires
        old(cpu).wf(),
    ensures
        final(cpu).wf(),
        final(cpu)@ == spec_sprite_address(old(cpu)@, ins@),
{
    cpu.register_i = cpu.register[ins.register_x()] as u16 * 5;
}

/// Write the decimal digits of Vx, hundreds first, to memory at I, I+1, I+2.
pub fn store_register_x(cpu: &mut Cpu, ins: &Opcode)
    requires
        old(cpu).wf(),
        old(cpu).register_i + 2 < 4096,
    ensures
        final(cpu).wf(),
        final(cpu)@ == spec_store_register_x(old(cpu)@, ins@),
{
    let v = cpu.register[ins.register_x()];
    let i = cpu.register_i as usize;
    cpu.memory.set(i, v / 100);
    cpu.memory.set(i + 1, (v / 10) % 10);
    cpu.memory.set(i + 2, v % 10);
}

/// Write V0 through Vx inclusive to memory starting at I.
pub fn store_registers(cpu: &mut Cpu, ins: &Opcode)
    requires
        old(cpu).wf(),
        old(cpu).register_i + op_x(ins@) < 4096,
    ensures
        final(cpu).wf(),
        final(cpu)@ == spec_store_registers(old(cpu)@, ins@),
{
    let x = ins.register_x();
    let base = cpu.register_i as usize;
    let mut i: usize = 0;
    while i <= x
        invariant
            old(cpu).wf(),
            i <= x + 1,
            x as int == op_x(ins@),
            x < 16,
            base == old(cpu).register_i,
            base + x < 4096,
            cpu@ == (CpuState { memory: cpu@.memory, ..old(cpu)@ }),
            cpu@.memory.len() == 4096,
            forall|j: int| 0 <= j < i ==> cpu@.memory[base + j] == old(cpu)@.register[j],
            forall|j: int|
                0 <= j < 4096 && !(base <= j < base + i) ==> cpu@.memory[j] == old(cpu)@.memory[j],
        decreases x + 1 - i,
    {
        let v = cpu.register[i];
        cpu.memory.set(base + i, v);
        i += 1;
    }
    proof {
        assert(cpu@.memory =~= spec_store_registers(old(cpu)@, ins@).memory);
    }
}

/// Read memory starting at I into V0 through Vx inclusive.
pub fn read_registers(cpu: &mut Cpu, ins: &Opcode)
    requires
        old(cpu).wf(),
        old(cpu).register_i + op_x(ins@) < 4096,
    ensures
        final(cpu).wf(),
        final(cpu)@ == spec_read_registers(old(cpu)@, ins@),
{
    let x = ins.register_x();
    let base = cpu.register_i as usize;
    let mut i: usize = 0;
    while i <= x
        invariant
            old(cpu).wf(),
            i <= x + 1,
            x as int == op_x(ins@),
            x < 16,
            base == old(cpu).register_i,
            base + x < 4096,
            cpu@ == (CpuState { register: cpu@.register, ..old(cpu)@ }),
            cpu@.register.len() == 16,
            forall|j: int| 0 <= j < i ==> cpu@.register[j] == old(cpu)@.memory[base + j],
            forall|j: int| i <= j < 16 ==> cpu@.register[j] == old(cpu)@.register[j],
        decreases x + 1 - i,
    {
        let v = cpu.memory[base + i];
        cpu.register.set(i, v);
        i += 1;
    }
    proof {
        assert(cpu@.register =~= spec_read_registers(old(cpu)@, ins@).register);
    }
}

/// XOR an n-row sprite, read from memory at register I, into the framebuffer
/// anchored at (Vx, Vy). The flag register is reset, then reports collision
/// with any already-lit pixel; redraw is signalled. Pixel coordinates wrap on
/// the linear index modulo 2048, not per axis: the behaviour this machine
/// defines.
pub fn draw(cpu: &mut Cpu, ins: &Opcode)
    requires
        old(cpu).wf(),
        op_n(ins@) == 0 || old(cpu).register_i + op_n(ins@) <= 4096,
    ensures
        final(cpu).wf(),
        final(cpu)@ == spec_draw(old(cpu)@, ins@),
{
    cpu.register.set(0xf, 0);
    let start_x = cpu.register[ins.register_x()] as usize;
    let start_y = cpu.register[ins.register_y()] as usize;
    let height = ins.nibble() as usize;
    let ghost regs0 = old(cpu)@.register.update(15, 0u8);
    let ghost disp0 = old(cpu)@.display;
    let ghost mem0 = old(cpu)@.memory;
    let ghost base = old(cpu)@.register_i as int;
    let ghost gsx = start_x as int;
    let ghost gsy = start_y as int;

    let mut y: usize = 0;
    while y < height
        invariant
            old(cpu).wf(),
            y <= height,
            height as int == op_n(ins@),
            height == 0 || base + height <= 4096,
            base == old(cpu)@.register_i as int,
            gsx == regs0[op_x(ins@)] as int,
            gsy == regs0[op_y(ins@)] as int,
            gsx == start_x as int,
            gsy == start_y as int,
            start_x < 256,
            start_y < 256,
            regs0 == old(cpu)@.register.update(15, 0u8),
            disp0 == old(cpu)@.display,
            mem0 == old(cpu)@.memory,
            cpu@ == (CpuState { display: cpu@.display, register: cpu@.register, ..old(cpu)@ }),
            cpu@.display.len() == 2048,
            cpu@.register.len() == 16,
            (cpu@.display, cpu@.register[15]) == spec_draw_rows(
                disp0,
                0u8,
                mem0,
                base,
                gsx,
                gsy,
                y as int,
            ),
            forall|j: int| 0 <= j < 16 && j != 15 ==> cpu@.register[j] == regs0[j],
        decreases height - y,
    {
        let row = cpu.memory[cpu.register_i as usize + y];
        let ghost rowstart = spec_draw_rows(disp0, 0u8, mem0, base, gsx, gsy, y as int);
        let mut x: usize = 0;
        while x < 8
            invariant
                old(cpu).wf(),
                x <= 8,
                y < height,
                height as int == op_n(ins@),
                base + height <= 4096,
                base == old(cpu)@.register_i as int,
                gsx == start_x as int,
                gsy == start_y as int,
                start_x < 256,
                start_y < 256,
                row == mem0[base + y],
                mem0 == old(cpu)@.memory,
                cpu@ == (CpuState { display: cpu@.display, register: cpu@.register, ..old(cpu)@ }),
                cpu@.display.len() == 2048,
                cpu@.register.len() == 16,
                (cpu@.display, cpu@.register[15]) == spec_draw_cols(
                    rowstart.0,
                    rowstart.1,
                    row,
                    gsx,
                    gsy + y,
                    x as int,
                ),
                rowstart == spec_draw_rows(disp0, 0u8, mem0, base, gsx, gsy, y as int),
                forall|j: int| 0 <= j < 16 && j != 15 ==> cpu@.register[j] == regs0[j],
            decreases 8 - x,
        {
            let bit = (row >> ((7 - x) as u8)) & 1;
            let coord = ((start_y + y) * 64 + (start_x + x)) % 2048;
            if bit == 1 {
                if cpu.display[coord] == 1 {
                    cpu.register.set(0xf, 1);
                }
                let p = cpu.display[coord];
                cpu.display.set(coord, p ^ 1);
            }
            x += 1;
        }
        proof {
            assert((cpu@.display, cpu@.register[15]) == spec_draw_rows(
                disp0,
                0u8,
                mem0,
                base,
                gsx,
                gsy,
                y as int + 1,
            ));
        }
        y += 1;
    }
    cpu.redraw_flag = true;
    proof {
        assert(cpu@.register =~= spec_draw(old(cpu)@, ins@).register);
        assert(cpu@ == spec_draw(old(cpu)@, ins@));
    }
}

/// No routine is defined for this word: report it, touching nothing.
pub fn unknown_instruction(cpu: &mut Cpu, instruction: &Opcode) -> (r: Result<(), Error>)
    ensures
        final(cpu)@ == old(cpu)@,
        r == Err::<(), Error>(Error::UnknownInstruction(instruction@.0, instruction@.1)),
{
    let bytes = instruction.bytes();
    Err(Error::UnknownInstruction(bytes.0, bytes.1))
}

// ---------------------------------------------------------------------------
// Dispatch with explicit fatal errors: every caller-unchecked condition of a
// routine is tested first and reported, so that no instruction can corrupt
// state or panic.
// ---------------------------------------------------------------------------

/// The outcome of one routine, for every routine whose result is a function
/// of the state and the word alone: either the next state or the fatal error,
/// with the machine untouched. (`random Vx,byte` is the one routine whose
/// result is not; `spec_apply_rel` covers it.)
pub open spec fn spec_apply_det(s: CpuState, op: Operation, w: (u8, u8)) -> Result<
    CpuState,
    Error,
> {
    match op {
        Operation::ClearDisplay => Ok(spec_clear_display(s)),
        Operation::Return => if s.stack_pointer == 0 {
            Err(Error::StackUnderflow)
        } else {
            Ok(spec_return(s))
        },
        Operation::Jump => if op_addr(w) < 2 {
            Err(Error::JumpTargetOutOfRange)
        } else {
            Ok(spec_jump(s, w))
        },
        Operation::Call => if s.program_counter > 0xffff {
            Err(Error::ProgramCounterOutOfRange)
        } else if s.stack_pointer >= 15 {
            Err(Error::StackOverflow)
        } else if op_addr(w) < 2 {
            Err(Error::JumpTargetOutOfRange)
        } else {
            Ok(spec_call(s, w))
        },
        Operation::SkipIfEqual => if s.program_counter + 2 > usize::MAX {
            Err(Error::ProgramCounterOutOfRange)
        } else {
            Ok(spec_skip_if_equal(s, w))
        },
        Operation::SkipNotEqual => if s.program_counter + 2 > usize::MAX {
            Err(Error::ProgramCounterOutOfRange)
        } else {
            Ok(spec_skip_not_equal(s, w))
        },
        Operation::SkipEqualRegisters => if s.program_counter + 2 > usize::MAX {
            Err(Error::ProgramCounterOutOfRange)
        } else {
            Ok(spec_skip_equal_registers(s, w))
        },
        Operation::LoadByte => Ok(spec_load_byte(s, w)),
        Operation::AddByte => Ok(spec_add_byte(s, w)),
        Operation::LoadRegister => Ok(spec_load_register(s, w)),
        Operation::BitwiseOr => Ok(spec_bitwise_or(s, w)),
        Operation::BitwiseAnd => Ok(spec_bitwise_and(s, w)),
        Operation::BitwiseXor => Ok(spec_bitwise_xor(s, w)),
        Operation::AddRegisters => Ok(spec_add_registers(s, w)),
        Operation::SubtractRegisters => Ok(spec_subtract_registers(s, w)),
        Operation::ShiftRight => Ok(spec_shift_right(s, w)),
        Operation::SubtractNegative => Ok(spec_subtract_negative(s, w)),
        Operation::ShiftLeft => Ok(spec_shift_left(s, w)),
        Operation::SkipNotEqualRegisters => if s.program_counter + 2 > usize::MAX {
            Err(Error::ProgramCounterOutOfRange)
        } else {
            Ok(spec_skip_not_equal_registers(s, w))
        },
        Operation::LoadRegisterI => Ok(spec_load_register_i(s, w)),
        Operation::JumpRegister0 => Ok(spec_jump_register_0(s, w)),
        Operation::RandomByte => Ok(s),
        Operation::Draw => if op_n(w) != 0 && s.register_i + op_n(w) > 4096 {
            Err(Error::MemoryOutOfRange)
        } else {
            Ok(spec_draw(s, w))
        },
        Operation::SkipIfKey => if s.register[op_x(w)] >= 16 {
            Err(Error::KeyOutOfRange)
        } else if s.program_counter + 2 > usize::MAX {
            Err(Error::ProgramCounterOutOfRange)
        } else {
            Ok(spec_skip_if_key(s, w))
        },
        Operation::SkipIfNotKey => if s.register[op_x(w)] >= 16 {
            Err(Error::KeyOutOfRange)
        } else if s.program_counter + 2 > usize::MAX {
            Err(Error::ProgramCounterOutOfRange)
        } else {
            Ok(spec_skip_if_not_key(s, w))
        },
        Operation::ReadDelayTimer => Ok(spec_read_delay_timer(s, w)),
        Operation::WaitForKey => Ok(spec_wait_for_key(s, w)),
        Operation::SetDelayTimer => Ok(spec_set_delay_timer(s, w)),
        Operation::SetSoundTimer => Ok(spec_set_sound_timer(s, w)),
        Operation::AddRegisterI => if s.register_i + s.register[op_x(w)] > 0xffff {
            Err(Error::RegisterOverflow)
        } else {
            Ok(spec_add_register_i(s, w))
        },
        Operation::SpriteAddress => Ok(spec_sprite_address(s, w)),
        Operation::StoreBcd => if s.register_i + 2 >= 4096 {
            Err(Error::MemoryOutOfRange)
        } else {
            Ok(spec_store_register_x(s, w))
        },
        Operation::StoreRegisters => if s.register_i + op_x(w) >= 4096 {
            Err(Error::MemoryOutOfRange)
        } else {
            Ok(spec_store_registers(s, w))
        },
        Operation::ReadRegisters => if s.register_i + op_x(w) >= 4096 {
            Err(Error::MemoryOutOfRange)
        } else {
            Ok(spec_read_registers(s, w))
        },
        Operation::Unknown => Err(Error::UnknownInstruction(w.0, w.1)),
    }
}

/// How one routine may relate the state before to the state after and to the
/// reported outcome. For every routine but `random Vx,byte` this is exactly
/// `spec_apply_det`; for `random Vx,byte` some byte was drawn.
pub open spec fn spec_apply_rel(
    pre: CpuState,
    op: Operation,
    w: (u8, u8),
    post: CpuState,
    r: Result<(), Error>,
) -> bool {
    match op {
        Operation::RandomByte => r is Ok && (exists|drawn: u8|
            post == spec_random_byte(pre, w, drawn)),
        _ => match spec_apply_det(pre, op, w) {
            Ok(s2) => r is Ok && post == s2,
            Err(e) => r == Err::<(), Error>(e) && post == pre,
        },
    }
}

/// Run one decoded instruction against the machine: test every fatal
/// condition of the routine first, and either report it with the machine
/// untouched or perform exactly the routine's transition.
pub fn apply_operation(cpu: &mut Cpu, op: Operation, ins: &Opcode) -> (r: Result<(), Error>)
    requires
        old(cpu).wf(),
    ensures
        final(cpu).wf(),
        spec_apply_rel(old(cpu)@, op, ins@, final(cpu)@, r),
{
    match op {
        Operation::ClearDisplay => {
            clear_display(cpu, ins);
            Ok(())
        },
        Operation::Return => {
            if cpu.stack_pointer == 0 {
                Err(Error::StackUnderflow)
            } else {
                return_from_subroutine(cpu, ins);
                Ok(())
            }
        },
        Operation::Jump => {
            if ins.address() < 2 {
                Err(Error::JumpTargetOutOfRange)
            } else {
                jump_to_address(cpu, ins);
                Ok(())
            }
        },
        Operation::Call => {
            if cpu.program_counter > 0xffff {
                Err(Error::ProgramCounterOutOfRange)
            } else if cpu.stack_pointer >= 15 {
                Err(Error::StackOverflow)
            } else if ins.address() < 2 {
                Err(Error::JumpTargetOutOfRange)
            } else {
                call_subroutine(cpu, ins);
                Ok(())
            }
        },
        Operation::SkipIfEqual => {
            if cpu.program_counter > usize::MAX - 2 {
                Err(Error::ProgramCounterOutOfRange)
            } else {
                skip_if_equal(cpu, ins);
                Ok(())
            }
        },
        Operation::SkipNotEqual => {
            if cpu.program_counter > usize::MAX - 2 {
                Err(Error::ProgramCounterOutOfRange)
            } else {
                skip_not_equal(cpu, ins);
                Ok(())
            }
        },
        Operation::SkipEqualRegisters => {
            if cpu.program_counter > usize::MAX - 2 {
                Err(Error::ProgramCounterOutOfRange)
            } else {
                skip_equal_registers(cpu, ins);
                Ok(())
            }
        },
        Operation::LoadByte => {
            load_byte(cpu, ins);
            Ok(())
        },
        Operation::AddByte => {
            add_byte(cpu, ins);
            Ok(())
        },
        Operation::LoadRegister => {
            load_register(cpu, ins);
            Ok(())
        },
        Operation::BitwiseOr => {
            bitwise_or(cpu, ins);
            Ok(())
        },
        Operation::BitwiseAnd => {
            bitwise_and(cpu, ins);
            Ok(())
        },
        Operation::BitwiseXor => {
            bitwise_xor(cpu, ins);
            Ok(())
        },
        Operation::AddRegisters => {
            add_registers(cpu, ins);
            Ok(())
        },
        Operation::SubtractRegisters => {
            subtract_registers(cpu, ins);
            Ok(())
        },
        Operation::ShiftRight => {
            shift_right(cpu, ins);
            Ok(())
        },
        Operation::SubtractNegative => {
            subtract_negative(cpu, ins);
            Ok(())
        },
        Operation::ShiftLeft => {
            shift_left(cpu, ins);
            Ok(())
        },
        Operation::SkipNotEqualRegisters => {
            if cpu.program_counter > usize::MAX - 2 {
                Err(Error::ProgramCounterOutOfRange)
            } else {
                skip_not_equal_registers(cpu, ins);
                Ok(())
            }
        },
        Operation::LoadRegisterI => {
            load_register_i(cpu, ins);
            Ok(())
        },
        Operation::JumpRegister0 => {
            jump_register_0(cpu, ins);
            Ok(())
        },
        Operation::RandomByte => {
            random_byte(cpu, ins);
            Ok(())
        },
        Operation::Draw => {
            let n = ins.nibble();
            if n != 0 && cpu.register_i as usize > 4096 - n as usize {
                Err(Error::MemoryOutOfRange)
            } else {
                draw(cpu, ins);
                Ok(())
            }
        },
        Operation::SkipIfKey => {
            if cpu.register[ins.register_x()] >= 16 {
                Err(Error::KeyOutOfRange)
            } else if cpu.program_counter > usize::MAX - 2 {
                Err(Error::ProgramCounterOutOfRange)
            } else {
                skip_if_key(cpu, ins);
                Ok(())
            }
        },
        Operation::SkipIfNotKey => {
            if cpu.register[ins.register_x()] >= 16 {
                Err(Error::KeyOutOfRange)
            } else if cpu.program_counter > usize::MAX - 2 {
                Err(Error::ProgramCounterOutOfRange)
            } else {
                skip_if_not_key(cpu, ins);
                Ok(())
            }
        },
        Operation::ReadDelayTimer => {
            set_register_to_delay_timer(cpu, ins);
            Ok(())
        },
        Operation::WaitForKey => {
            wait_for_key(cpu, ins);
            Ok(())
        },
        Operation::SetDelayTimer => {
            set_delay_timer(cpu, ins);
            Ok(())
        },
        Operation::SetSoundTimer => {
            set_sound_timer(cpu, ins);
            Ok(())
        },
        Operation::AddRegisterI => {
            if cpu.register[ins.register_x()] as u16 > 0xffff - cpu.register_i {
                Err(Error::RegisterOverflow)
            } else {
                add_register_i(cpu, ins);
                Ok(())
            }
        },
        Operation::SpriteAddress => {
            set_register_i_to_sprite(cpu, ins);
            Ok(())
        },
        Operation::StoreBcd => {
            if cpu.register_i >= 4094 {
                Err(Error::MemoryOutOfRange)
            } else {
                store_register_x(cpu, ins);
                Ok(())
            }
        },
        Operation::StoreRegisters => {
            if cpu.register_i as usize >= 4096 - ins.register_x() {
                Err(Error::MemoryOutOfRange)
            } else {
                store_registers(cpu, ins);
                Ok(())
            }
        },
        Operation::ReadRegisters => {
            if cpu.register_i as usize >= 4096 - ins.register_x() {
                Err(Error::MemoryOutOfRange)
            } else {
                read_registers(cpu, ins);
                Ok(())
            }
        },
        Operation::Unknown => unknown_instruction(cpu, ins),
    }
}

/// One fetch-decode-dispatch-execute step: how the machine state before it
/// may relate to the state after and to the reported outcome. The program
/// counter must address a whole two-byte word; the word's routine then
/// relates the states as `spec_apply_rel` says.
pub open spec fn spec_execute_rel(pre: CpuState, post: CpuState, r: Result<(), Error>) -> bool {
    if pre.program_counter + 1 >= 4096 {
        r == Err::<(), Error>(Error::ProgramCounterOutOfRange) && post == pre
    } else {
        let w = (pre.memory[pre.program_counter as int], pre.memory[pre.program_counter + 1]);
        spec_apply_rel(pre, spec_operation(w), w, post, r)
    }
}

/// After any successfully executed instruction the program counter is still
/// within the 16-bit address range, so the cycle driver's uniform +2 advance
/// cannot overflow it.
pub proof fn lemma_execute_pc_bound(pre: CpuState, post: CpuState)
    requires
        wf_state(pre),
        spec_execute_rel(pre, post, Ok(())),
    ensures
        post.program_counter <= 0xffff,
{
    let w = (pre.memory[pre.program_counter as int], pre.memory[pre.program_counter + 1]);
    let op = spec_operation(w);
    if op == Operation::RandomByte {
        let drawn = choose|drawn: u8| post == spec_random_byte(pre, w, drawn);
        assert(post == spec_random_byte(pre, w, drawn));
    }
}

/// Fetch the word at the program counter, resolve its routine and run it,
/// reporting any fatal condition with the machine untouched.
pub fn execute_instruction(cpu: &mut Cpu) -> (r: Result<(), Error>)
    requires
        old(cpu).wf(),
    ensures
        final(cpu).wf(),
        spec_execute_rel(old(cpu)@, final(cpu)@, r),
{
    if cpu.program_counter >= 4095 {
        return Err(Error::ProgramCounterOutOfRange);
    }
    let ins = Opcode::from_cpu(cpu);
    let op = function_from_instruction(&ins);
    apply_operation(cpu, op, &ins)
}

} // verus!
