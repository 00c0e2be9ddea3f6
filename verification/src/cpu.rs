use crate::error::Error;
use crate::operations::{execute_instruction, lemma_execute_pc_bound, spec_execute_rel};
use crate::state::{spec_first_pressed, spec_tick, wf_state, CpuState};
use vstd::pervasive::VecAdditionalExecFns;
use vstd::prelude::*;

verus! {

/// The machine state: memory, registers, framebuffer, timers, call stack,
/// keypad snapshot and the keyboard-wait sub-state. One instance is created
/// per emulation session and mutated exclusively by the cycle driver.
#[derive(Debug)]
pub struct Cpu {
    /// 4096 addressable bytes; the glyph table sits in [0x000, 0x050),
    /// the program image is loaded at 0x200.
    pub memory: Vec<u8>,
    /// Sixteen 8-bit registers; register 15 doubles as the flag output
    /// (carry / borrow / collision) of several instructions.
    pub register: Vec<u8>,
    /// 16-bit address register, the base of memory-indexed instructions.
    pub register_i: u16,
    /// Byte offset of the next instruction; starts at 0x200.
    pub program_counter: usize,
    /// 64x32 pixels, row-major (index = y * 64 + x); 0 off, 1 on.
    pub display: Vec<u8>,
    pub delay_timer: u8,
    pub sound_timer: u8,
    /// Sixteen 16-bit return-address slots.
    pub stack: Vec<u16>,
    pub stack_pointer: usize,
    /// Sixteen logical key states, refreshed from a snapshot each cycle.
    pub keypad: Vec<bool>,
    /// Set by any instruction that mutates the display; cleared by the
    /// cycle driver after being reported once.
    pub redraw_flag: bool,
    /// Whether the machine is suspended awaiting the next key press.
    pub keypad_waiting: bool,
    /// The register that receives the key once the wait resolves.
    pub keypad_waiting_register: u8,
}

/// What the cycle driver reports to its collaborators: whether the display
/// changed since the last report, and whether the tone should play.
#[derive(Debug, Clone, Copy, PartialEq, Eq, Structural)]
pub struct CycleOutput {
    pub redraw_flag: bool,
    pub sound_flag: bool,
}

/// The built-in glyph table: sixteen hexadecimal digit sprites of 5 rows
/// each, one row per byte, the visible pixels in the high 4 bits.
pub open spec fn spec_fontset() -> Seq<u8> {
    seq![
        0xF0u8, 0x90, 0x90, 0x90, 0xF0,
        0x20, 0x60, 0x20, 0x20, 0x70,
        0xF0, 0x10, 0xF0, 0x80, 0xF0,
        0xF0, 0x10, 0xF0, 0x10, 0xF0,
        0x90, 0x90, 0xF0, 0x10, 0x10,
        0xF0, 0x80, 0xF0, 0x10, 0xF0,
        0xF0, 0x80, 0xF0, 0x90, 0xF0,
        0xF0, 0x10, 0x20, 0x40, 0x40,
        0xF0, 0x90, 0xF0, 0x90, 0xF0,
        0xF0, 0x90, 0xF0, 0x10, 0xF0,
        0xF0, 0x90, 0xF0, 0x90, 0x90,
        0xE0, 0x90, 0xE0, 0x90, 0xE0,
        0xF0, 0x80, 0x80, 0x80, 0xF0,
        0xE0, 0x90, 0x90, 0x90, 0xE0,
        0xF0, 0x80, 0xF0, 0x80, 0xF0,
        0xF0, 0x80, 0xF0, 0x80, 0x80,
    ]
}

/// Memory as construction leaves it: the glyph table below 0x50, the program
/// image from 0x200, and zero everywhere else.
pub open spec fn spec_initial_memory(p: Seq<u8>) -> Seq<u8> {
    Seq::new(
        4096,
        |j: int|
            if 0 <= j < 80 {
                spec_fontset()[j]
            } else if 0x200 <= j < 0x200 + p.len() {
                p[j - 0x200]
            } else {
                0u8
            },
    )
}

/// The whole machine as construction leaves it: initial memory, the program
/// counter at 0x200, and every register, pixel, timer, stack slot and key
/// state zero.
pub open spec fn spec_initial_state(p: Seq<u8>) -> CpuState {
    CpuState {
        memory: spec_initial_memory(p),
        register: Seq::new(16, |j: int| 0u8),
        register_i: 0,
        program_counter: 0x200,
        display: Seq::new(2048, |j: int| 0u8),
        delay_timer: 0,
        sound_timer: 0,
        stack: Seq::new(16, |j: int| 0u16),
        stack_pointer: 0,
        keypad: Seq::new(16, |j: int| false),
        redraw_flag: false,
        keypad_waiting: false,
        keypad_waiting_register: 0,
    }
}

/// One discrete step of machine evolution, as a relation between the state
/// before, the key snapshot, the state after and the reported outcome.
/// While waiting for a key, nothing is fetched and no timer moves: either the
/// lowest-indexed pressed key resolves the wait, or the state persists.
/// Otherwise one instruction executes (or its fatal error is reported with
/// only the keypad refreshed), both timers count down once, the redraw flag
/// is reported and cleared, and the program counter advances by 2.
/// The tone output reports whether the sound timer was non-zero entering the
/// cycle.
pub open spec fn spec_cycle_rel(
    pre: CpuState,
    keys: Seq<bool>,
    post: CpuState,
    r: Result<CycleOutput, Error>,
) -> bool {
    let snap = CpuState { keypad: keys, ..pre };
    let tone = pre.sound_timer > 0;
    if pre.keypad_waiting {
        let k = spec_first_pressed(keys, 0);
        let resolved = if k < 16 {
            CpuState {
                keypad_waiting: false,
                register: snap.register.update(pre.keypad_waiting_register as int, k as u8),
                ..snap
            }
        } else {
            snap
        };
        post == resolved && r == Ok::<CycleOutput, Error>(
            CycleOutput { redraw_flag: false, sound_flag: tone },
        )
    } else {
        match r {
            Result::Err(e) => spec_execute_rel(snap, snap, Err(e)) && post == snap,
            Result::Ok(out) => exists|mid: CpuState|
                {
                    &&& #[trigger] spec_execute_rel(snap, mid, Ok(()))
                    &&& post == (CpuState {
                        delay_timer: spec_tick(mid.delay_timer),
                        sound_timer: spec_tick(mid.sound_timer),
                        redraw_flag: false,
                        program_counter: (mid.program_counter + 2) as usize,
                        ..mid
                    })
                    &&& out == (CycleOutput { redraw_flag: mid.redraw_flag, sound_flag: tone })
                },
        }
    }
}

/// A vector of `n` copies of `v`.
fn filled<T: Copy>(n: usize, v: T) -> (r: Vec<T>)
    ensures
        r@ == Seq::new(n as nat, |i: int| v),
{
    let mut out: Vec<T> = Vec::new();
    let mut i: usize = 0;
    while i < n
        invariant
            i <= n,
            out@.len() == i,
            forall|j: int| 0 <= j < i ==> out@[j] == v,
        decreases n - i,
    {
        out.push(v);
        i += 1;
    }
    proof {
        assert(out@ =~= Seq::new(n as nat, |i: int| v));
    }
    out
}

/// The glyph table as bytes, row by row.
fn fontset() -> (r: Vec<u8>)
    ensures
        r@ == spec_fontset(),
{
    let mut f: Vec<u8> = Vec::new();
    f.push(0xF0); f.push(0x90); f.push(0x90); f.push(0x90); f.push(0xF0);
    f.push(0x20); f.push(0x60); f.push(0x20); f.push(0x20); f.push(0x70);
    f.push(0xF0); f.push(0x10); f.push(0xF0); f.push(0x80); f.push(0xF0);
    f.push(0xF0); f.push(0x10); f.push(0xF0); f.push(0x10); f.push(0xF0);
    f.push(0x90); f.push(0x90); f.push(0xF0); f.push(0x10); f.push(0x10);
    f.push(0xF0); f.push(0x80); f.push(0xF0); f.push(0x10); f.push(0xF0);
    f.push(0xF0); f.push(0x80); f.push(0xF0); f.push(0x90); f.push(0xF0);
    f.push(0xF0); f.push(0x10); f.push(0x20); f.push(0x40); f.push(0x40);
    f.push(0xF0); f.push(0x90); f.push(0xF0); f.push(0x90); f.push(0xF0);
    f.push(0xF0); f.push(0x90); f.push(0xF0); f.push(0x10); f.push(0xF0);
    f.push(0xF0); f.push(0x90); f.push(0xF0); f.push(0x90); f.push(0x90);
    f.push(0xE0); f.push(0x90); f.push(0xE0); f.push(0x90); f.push(0xE0);
    f.push(0xF0); f.push(0x80); f.push(0x80); f.push(0x80); f.push(0xF0);
    f.push(0xE0); f.push(0x90); f.push(0x90); f.push(0x90); f.push(0xE0);
    f.push(0xF0); f.push(0x80); f.push(0xF0); f.push(0x80); f.push(0xF0);
    f.push(0xF0); f.push(0x80); f.push(0xF0); f.push(0x80); f.push(0x80);
    proof {
        assert(f@ =~= spec_fontset());
    }
    f
}

/// Index of the first pressed key, scanning upward from key 0, or 16 when no
/// key is pressed.
fn first_pressed(keys: &Vec<bool>) -> (r: usize)
    requires
        keys@.len() == 16,
    ensures
        r as int == spec_first_pressed(keys@, 0),
{
    let mut i: usize = 0;
    while i < 16
        invariant
            i <= 16,
            keys@.len() == 16,
            spec_first_pressed(keys@, 0) == spec_first_pressed(keys@, i as int),
        decreases 16 - i,
    {
        if keys[i] {
            return i;
        }
        i += 1;
    }
    16
}

impl View for Cpu {
    type V = CpuState;

    open spec fn view(&self) -> CpuState {
        CpuState {
            memory: self.memory@,
            register: self.register@,
            register_i: self.register_i,
            program_counter: self.program_counter,
            display: self.display@,
            delay_timer: self.delay_timer,
            sound_timer: self.sound_timer,
            stack: self.stack@,
            stack_pointer: self.stack_pointer,
            keypad: self.keypad@,
            redraw_flag: self.redraw_flag,
            keypad_waiting: self.keypad_waiting,
            keypad_waiting_register: self.keypad_waiting_register,
        }
    }
}

impl Cpu {
    /// The machine's structural invariant, established by construction and
    /// preserved by every instruction and cycle.
    pub open spec fn wf(&self) -> bool {
        wf_state(self@)
    }

    /// Create a machine from a program image: the glyph table at address 0,
    /// the program at 0x200, everything else zero, the program counter at
    /// the first program byte. A program longer than the 3584 bytes of
    /// program space is rejected.
    pub fn new(program: &Vec<u8>) -> (r: Result<Self, Error>)
        ensures
            match r {
                Result::Ok(cpu) => program@.len() <= 3584 && cpu.wf() && cpu@
                    == spec_initial_state(program@),
                Result::Err(e) => program@.len() > 3584 && e == Error::ProgramTooLarge,
            },
    {
        if program.len() > 3584 {
            return Err(Error::ProgramTooLarge);
        }
        let mut memory: Vec<u8> = filled(4096, 0u8);
        let font = fontset();

        // load the glyph table into memory
        let mut i: usize = 0;
        while i < 80
            invariant
                i <= 80,
                memory@.len() == 4096,
                font@ == spec_fontset(),
                font@.len() == 80,
                forall|j: int| 0 <= j < i ==> memory@[j] == spec_fontset()[j],
                forall|j: int| i <= j < 4096 ==> memory@[j] == 0,
            decreases 80 - i,
        {
            let b = font[i];
            memory.set(i, b);
            i += 1;
        }

        // load the program image into memory
        let mut i: usize = 0;
        while i < program.len()
            invariant
                i <= program@.len(),
                program@.len() <= 3584,
                memory@.len() == 4096,
                forall|j: int| 0 <= j < 80 ==> memory@[j] == spec_fontset()[j],
                forall|j: int| 0 <= j < i ==> memory@[0x200 + j] == program@[j],
                forall|j: int|
                    80 <= j < 4096 && !(0x200 <= j < 0x200 + i) ==> memory@[j] == 0,
            decreases program@.len() - i,
        {
            let b = program[i];
            memory.set(0x200 + i, b);
            i += 1;
        }

        let cpu = Cpu {
            memory,
            register: filled(16, 0u8),
            register_i: 0,
            program_counter: 0x200,
            display: filled(2048, 0u8),
            delay_timer: 0,
            sound_timer: 0,
            stack: filled(16, 0u16),
            stack_pointer: 0,
            keypad: filled(16, false),
            redraw_flag: false,
            keypad_waiting: false,
            keypad_waiting_register: 0,
        };
        proof {
            assert(cpu@.memory =~= spec_initial_memory(program@));
            assert(cpu@ == spec_initial_state(program@));
        }
        Ok(cpu)
    }

    /// One discrete step of machine evolution: refresh the keypad from the
    /// snapshot, then either resolve or persist the keyboard wait, or execute
    /// one instruction, tick both timers, take the redraw flag and advance
    /// the program counter by 2. The outcome relates to the prior state as
    /// `spec_cycle_rel` says; a fatal condition is reported with only the
    /// keypad refreshed.
    pub fn cycle(&mut self, key_state: &[bool; 16]) -> (r: Result<CycleOutput, Error>)
        requires
            old(self).wf(),
        ensures
            final(self).wf(),
            spec_cycle_rel(old(self)@, key_state@, final(self)@, r),
    {
        let tone = self.sound_timer > 0;

        // take the fresh key snapshot
        let mut i: usize = 0;
        while i < 16
            invariant
                i <= 16,
                self@ == (CpuState { keypad: self@.keypad, ..old(self)@ }),
                self@.keypad.len() == 16,
                forall|j: int| 0 <= j < i ==> self@.keypad[j] == key_state@[j],
            decreases 16 - i,
        {
            let k = key_state[i];
            self.keypad.set(i, k);
            i += 1;
        }
        proof {
            assert(self@.keypad =~= key_state@);
        }
        let ghost snap = self@;

        if self.keypad_waiting {
            let k = first_pressed(&self.keypad);
            if k < 16 {
                self.keypad_waiting = false;
                let wr = self.keypad_waiting_register as usize;
                self.register.set(wr, k as u8);
            }
            Ok(CycleOutput { redraw_flag: false, sound_flag: tone })
        } else {
            match execute_instruction(self) {
                Result::Err(e) => Err(e),
                Result::Ok(_) => {
                    let ghost mid = self@;
                    proof {
                        lemma_execute_pc_bound(snap, mid);
                    }
                    if self.delay_timer > 0 {
                        self.delay_timer = self.delay_timer - 1;
                    }
                    if self.sound_timer > 0 {
                        self.sound_timer = self.sound_timer - 1;
                    }
                    let redraw = self.redraw_flag;
                    self.redraw_flag = false;
                    self.program_counter = self.program_counter + 2;
                    proof {
                        assert(self@ == (CpuState {
                            delay_timer: spec_tick(mid.delay_timer),
                            sound_timer: spec_tick(mid.sound_timer),
                            redraw_flag: false,
                            program_counter: (mid.program_counter + 2) as usize,
                            ..mid
                        }));
                        assert(spec_execute_rel(snap, mid, Ok(())));
                    }
                    Ok(CycleOutput { redraw_flag: redraw, sound_flag: tone })
                },
            }
        }
    }
}

} // verus!
