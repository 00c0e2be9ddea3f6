use vstd::prelude::*;

verus! {

/// Mathematical model of the whole machine: each field is the abstract value
/// of the corresponding field of `crate::cpu::Cpu`. Every instruction's
/// semantics is a pure function from one `CpuState` to the next.
pub struct CpuState {
    pub memory: Seq<u8>,
    pub register: Seq<u8>,
    pub register_i: u16,
    pub program_counter: usize,
    pub display: Seq<u8>,
    pub delay_timer: u8,
    pub sound_timer: u8,
    pub stack: Seq<u16>,
    pub stack_pointer: usize,
    pub keypad: Seq<bool>,
    pub redraw_flag: bool,
    pub keypad_waiting: bool,
    pub keypad_waiting_register: u8,
}

/// Well-formedness: the fixed sizes of the machine's parts, the stack pointer
/// inside the stack, and the keyboard-wait target a valid register index.
pub open spec fn wf_state(s: CpuState) -> bool {
    &&& s.memory.len() == 4096
    &&& s.register.len() == 16
    &&& s.display.len() == 2048
    &&& s.stack.len() == 16
    &&& s.keypad.len() == 16
    &&& s.stack_pointer < 16
    &&& s.keypad_waiting_register < 16
}

/// One countdown step of a timer: decrement when non-zero, stay at zero.
pub open spec fn spec_tick(t: u8) -> u8 {
    if t > 0 {
        (t - 1) as u8
    } else {
        0
    }
}

/// Index of the first pressed key at or after position `i`, or 16 when no
/// key at or after `i` is pressed.
pub open spec fn spec_first_pressed(keys: Seq<bool>, i: int) -> int
    decreases 16 - i,
{
    if i < 0 || i >= 16 {
        16
    } else if keys[i] {
        i
    } else {
        spec_first_pressed(keys, i + 1)
    }
}

} // verus!
