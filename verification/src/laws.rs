use crate::cpu::{spec_cycle_rel, CycleOutput};
use crate::error::Error;
use crate::opcode::{op_addr, op_byte, op_x};
use crate::operations::{
    spec_add_byte, spec_call, spec_clear_display, spec_execute_rel, spec_read_registers,
    spec_return, spec_store_registers,
};
use crate::state::{spec_first_pressed, spec_tick, wf_state, CpuState};
use vstd::prelude::*;

verus! {

/// For all 8-bit values a (in Vx) and b: `add Vx,byte` sets the flag register
/// to 1 exactly when a + b > 255, and stores (a + b) mod 256 in Vx — for
/// every Vx except the flag register itself, which the stored sum overwrites.
pub proof fn lemma_add_byte_flag_semantics(s: CpuState, w: (u8, u8))
    requires
        wf_state(s),
        op_x(w) != 15,
    ensures
        ({
            let a = s.register[op_x(w)];
            let b = op_byte(w);
            let regs = spec_add_byte(s, w).register;
            &&& (regs[15] == 1 <==> a + b > 255)
            &&& regs[op_x(w)] as int == (a + b) % 256
        }),
{
}

/// A `call` followed by the matching `return` restores the program counter
/// and the stack depth to their values before the call.
pub proof fn lemma_call_return_round_trip(s: CpuState, w: (u8, u8))
    requires
        wf_state(s),
        s.stack_pointer < 15,
        s.program_counter <= 0xffff,
        op_addr(w) >= 2,
    ensures
        spec_return(spec_call(s, w)).program_counter == s.program_counter,
        spec_return(spec_call(s, w)).stack_pointer == s.stack_pointer,
{
}

/// `clear display` leaves every pixel off and signals redraw.
pub proof fn lemma_clear_display_blanks(s: CpuState)
    ensures
        forall|i: int| 0 <= i < 2048 ==> spec_clear_display(s).display[i] == 0,
        spec_clear_display(s).redraw_flag,
{
}

/// A cycle whose fetched instruction is `clear display` succeeds, reports
/// redraw for that cycle, and leaves every pixel off.
pub proof fn lemma_cycle_clear_display(
    s: CpuState,
    keys: Seq<bool>,
    post: CpuState,
    out: CycleOutput,
)
    requires
        wf_state(s),
        !s.keypad_waiting,
        s.program_counter + 1 < 4096,
        s.memory[s.program_counter as int] == 0x00,
        s.memory[s.program_counter + 1] == 0xe0,
        spec_cycle_rel(s, keys, post, Ok(out)),
    ensures
        out.redraw_flag,
        forall|i: int| 0 <= i < 2048 ==> post.display[i] == 0,
{
    let snap = CpuState { keypad: keys, ..s };
    let tone = s.sound_timer > 0;
    let mid = choose|mid: CpuState|
        {
            &&& #[trigger] spec_execute_rel(snap, mid, Ok(()))
            &&& post == (CpuState {
                delay_timer: spec_tick(mid.delay_timer),
                sound_timer: spec_tick(mid.sound_timer),
                redraw_flag: false,
                program_counter: (mid.program_counter + 2) as usize,
                ..mid
            })
            &&& out == (CycleOutput { redraw_flag: mid.redraw_flag, sound_flag: tone })
        };
    assert(spec_execute_rel(snap, mid, Ok(())));
    assert(mid == spec_clear_display(snap));
}

/// Storing V0 through Vx to memory at I, then reading the same range back
/// from the same address, reproduces every register exactly.
pub proof fn lemma_store_read_registers_round_trip(s: CpuState, w: (u8, u8))
    requires
        wf_state(s),
        s.register_i + op_x(w) < 4096,
    ensures
        spec_read_registers(spec_store_registers(s, w), w).register == s.register,
{
    assert(spec_read_registers(spec_store_registers(s, w), w).register =~= s.register);
}

/// A scan over keys none of which is pressed at or after `i` finds none.
proof fn lemma_first_pressed_none(keys: Seq<bool>, i: int)
    requires
        forall|j: int| i <= j < 16 ==> !keys[j],
    ensures
        spec_first_pressed(keys, i) == 16,
    decreases 16 - i,
{
    if 0 <= i < 16 {
        lemma_first_pressed_none(keys, i + 1);
    }
}

/// A scan finds exactly the lowest pressed key.
proof fn lemma_first_pressed_finds(keys: Seq<bool>, i: int, k: int)
    requires
        0 <= i <= k < 16,
        keys[k],
        forall|j: int| i <= j < k ==> !keys[j],
    ensures
        spec_first_pressed(keys, i) == k,
    decreases k - i,
{
    if i < k {
        lemma_first_pressed_finds(keys, i + 1, k);
    }
}

/// Once the keyboard wait is entered, a cycle in which no key is pressed
/// changes nothing but the keypad snapshot — registers, memory, display,
/// timers, stack and the program counter all persist — and the wait state
/// itself persists into the next cycle.
pub proof fn lemma_wait_no_key_stalls(
    s: CpuState,
    keys: Seq<bool>,
    post: CpuState,
    r: Result<CycleOutput, Error>,
)
    requires
        wf_state(s),
        s.keypad_waiting,
        keys.len() == 16,
        forall|j: int| 0 <= j < 16 ==> !keys[j],
        spec_cycle_rel(s, keys, post, r),
    ensures
        post == (CpuState { keypad: keys, ..s }),
        post.keypad_waiting,
        r == Ok::<CycleOutput, Error>(
            CycleOutput { redraw_flag: false, sound_flag: s.sound_timer > 0 },
        ),
{
    lemma_first_pressed_none(keys, 0);
}

/// The first cycle in which any key is pressed resolves the wait to the
/// lowest-indexed pressed key, stores that index in the recorded register,
/// and executes no instruction: memory, display, timers, stack and the
/// program counter are untouched.
pub proof fn lemma_wait_key_resolves(
    s: CpuState,
    keys: Seq<bool>,
    k: int,
    post: CpuState,
    r: Result<CycleOutput, Error>,
)
    requires
        wf_state(s),
        s.keypad_waiting,
        keys.len() == 16,
        0 <= k < 16,
        keys[k],
        forall|j: int| 0 <= j < k ==> !keys[j],
        spec_cycle_rel(s, keys, post, r),
    ensures
        !post.keypad_waiting,
        post.register == s.register.update(s.keypad_waiting_register as int, k as u8),
        post.program_counter == s.program_counter,
        post.memory == s.memory,
        post.display == s.display,
        post.stack == s.stack,
        post.stack_pointer == s.stack_pointer,
        post.delay_timer == s.delay_timer,
        post.sound_timer == s.sound_timer,
        r == Ok::<CycleOutput, Error>(
            CycleOutput { redraw_flag: false, sound_flag: s.sound_timer > 0 },
        ),
{
    lemma_first_pressed_finds(keys, 0, k);
}

} // verus!
