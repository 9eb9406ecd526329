//! The executor: three registers over a memory image, stepped by a
//! fetch-decode-execute cycle.
//!
//! Each cycle fetches the cell under the code pointer, halts if it is
//! not printable, decodes it by value and position, performs the
//! instruction, rewrites the executed cell through the mutate table, and
//! advances both pointers.  The whole cycle is a pure function of the
//! machine state and the optional input byte ([`step_spec`]); the
//! executable [`Machine::step`] is proved to implement it exactly.

use vstd::prelude::*;

use crate::tables::decode_of;
use crate::tables::decode_table;
use crate::tables::mutate_entry;
use crate::tables::mutate_table;
use crate::tables::OP_CRAZY;
use crate::tables::OP_INPUT;
use crate::tables::OP_JUMP_CODE;
use crate::tables::OP_JUMP_DATA;
use crate::tables::OP_OUTPUT;
use crate::tables::OP_ROTATE;
use crate::tables::OP_STOP;
use crate::trits::crazy_op;
use crate::trits::is_printable;
use crate::trits::spec_crazy;
use crate::trits::spec_printable;
use crate::trits::spec_rotate;
use crate::trits::tri_rotate;
use crate::trits::MEMORY_SIZE;

verus! {

/// What one execution cycle did.
#[derive(Clone, Copy, Debug, PartialEq, Eq, Structural)]
pub enum StepResult {
    /// The cycle ran and produced no output.
    Continue,
    /// The cycle ran and emitted this byte.
    Output(u8),
    /// The machine halted: it was already halted, the fetched cell was
    /// not printable, or the cell decoded to the stop instruction.
    Halt,
    /// The cycle would have rewritten a cell whose value lies outside
    /// the printable range through the mutate table; the machine stops
    /// with its registers and memory as they were before the cycle.
    Fault,
}

/// How a bounded run ended.
#[derive(Clone, Copy, Debug, PartialEq, Eq, Structural)]
pub enum RunStatus {
    /// The machine halted.
    Halted,
    /// A cycle faulted (see [`StepResult::Fault`]).
    Faulted,
    /// The cycle budget ran out first.
    OutOfFuel,
}

/// The mathematical state of the machine: the memory image, the data
/// register `a`, the code pointer `c`, the data pointer `d`, and
/// whether it has halted.
pub ghost struct VmState {
    pub mem: Seq<usize>,
    pub a: usize,
    pub c: usize,
    pub d: usize,
    pub halted: bool,
}

/// Well-formedness: the memory has exactly one cell per address and
/// every cell and register holds a value below the memory size.
pub open spec fn state_wf(s: VmState) -> bool {
    &&& s.mem.len() == MEMORY_SIZE
    &&& forall|k: int| 0 <= k < MEMORY_SIZE ==> (#[trigger] s.mem[k]) < MEMORY_SIZE
    &&& s.a < MEMORY_SIZE
    &&& s.c < MEMORY_SIZE
    &&& s.d < MEMORY_SIZE
}

/// The cell under the code pointer.
pub open spec fn fetch(s: VmState) -> usize {
    s.mem[s.c as int]
}

/// Whether the machine will execute another cycle: it has not halted
/// and the fetched cell is printable.
pub open spec fn vm_running(s: VmState) -> bool {
    !s.halted && spec_printable(fetch(s) as int)
}

/// The instruction character of the current cycle.
pub open spec fn cur_opcode(s: VmState) -> u8 {
    decode_of(fetch(s) as int, s.c as int)
}

/// Whether the current cycle is an input instruction, so that a byte
/// from the input stream would be consumed.
pub open spec fn needs_input_spec(s: VmState) -> bool {
    vm_running(s) && cur_opcode(s) == OP_INPUT
}

/// The instruction's own effect: the state after dispatch but before
/// the post-step mutation and pointer advance, and the emitted byte if
/// the instruction was output.  The stop instruction is handled by
/// [`step_spec`] and never reaches this function.
pub open spec fn dispatch(s: VmState, input: Option<u8>) -> (VmState, Option<u8>)
    recommends
        state_wf(s),
        vm_running(s),
{
    let op = cur_opcode(s);
    if op == OP_JUMP_DATA {
        (VmState { d: s.mem[s.d as int], ..s }, None)
    } else if op == OP_JUMP_CODE {
        (VmState { c: s.mem[s.d as int], ..s }, None)
    } else if op == OP_ROTATE {
        let v = spec_rotate(s.mem[s.d as int] as int) as usize;
        (VmState { a: v, mem: s.mem.update(s.d as int, v), ..s }, None)
    } else if op == OP_CRAZY {
        let v = spec_crazy(s.a as int, s.mem[s.d as int] as int) as usize;
        (VmState { a: v, mem: s.mem.update(s.d as int, v), ..s }, None)
    } else if op == OP_OUTPUT {
        (s, Some((s.a as int % 256) as u8))
    } else if op == OP_INPUT {
        (
            VmState {
                a: (match input {
                    Some(b) => b as usize,
                    None => (MEMORY_SIZE - 1) as usize,
                }),
                ..s
            },
            None,
        )
    } else {
        (s, None)
    }
}

/// Whether the post-step mutation of this cycle has a printable cell to
/// rewrite.  After a code jump, or a store over the executed cell
/// itself, the cell under the new code pointer can fall outside the
/// printable range; the mutate table has no entry for such a value.
pub open spec fn mutation_target_ok(s: VmState, input: Option<u8>) -> bool {
    let s1 = dispatch(s, input).0;
    spec_printable(s1.mem[s1.c as int] as int)
}

/// One full cycle as a function of the state and the optional input
/// byte: the next state and what the cycle did.
#[verifier::opaque]
pub open spec fn step_spec(s: VmState, input: Option<u8>) -> (VmState, StepResult)
    recommends
        state_wf(s),
{
    if !vm_running(s) {
        (VmState { halted: true, ..s }, StepResult::Halt)
    } else if cur_opcode(s) == OP_STOP {
        (VmState { halted: true, ..s }, StepResult::Halt)
    } else if !mutation_target_ok(s, input) {
        (VmState { halted: true, ..s }, StepResult::Fault)
    } else {
        let (s1, out) = dispatch(s, input);
        let cell = s1.mem[s1.c as int];
        let s2 = VmState {
            mem: s1.mem.update(s1.c as int, mutate_entry(cell - 33) as usize),
            a: s1.a,
            c: ((s1.c + 1) % (MEMORY_SIZE as int)) as usize,
            d: ((s1.d + 1) % (MEMORY_SIZE as int)) as usize,
            halted: false,
        };
        (
            s2,
            match out {
                Some(b) => StepResult::Output(b),
                None => StepResult::Continue,
            },
        )
    }
}

/// A bounded run: step at most `fuel` cycles, feeding bytes of `input`
/// to input instructions (and end-of-stream once they run out), and
/// collect the emitted bytes.  Yields the final state, the output, and
/// how the run ended.
pub open spec fn run_spec(s: VmState, input: Seq<u8>, fuel: nat) -> (VmState, Seq<u8>, RunStatus)
    recommends
        state_wf(s),
    decreases fuel,
{
    if fuel == 0 {
        (s, Seq::<u8>::empty(), RunStatus::OutOfFuel)
    } else {
        let consume = needs_input_spec(s) && input.len() > 0;
        let inp: Option<u8> = if consume {
            Some(input[0])
        } else {
            None
        };
        let rest = if consume {
            input.drop_first()
        } else {
            input
        };
        let (s2, r) = step_spec(s, inp);
        match r {
            StepResult::Halt => (s2, Seq::<u8>::empty(), RunStatus::Halted),
            StepResult::Fault => (s2, Seq::<u8>::empty(), RunStatus::Faulted),
            StepResult::Output(b) => {
                let (s3, out, st) = run_spec(s2, rest, (fuel - 1) as nat);
                (s3, seq![b] + out, st)
            },
            StepResult::Continue => run_spec(s2, rest, (fuel - 1) as nat),
        }
    }
}

/// The machine: a memory image and three registers, stepped one cycle
/// at a time.
pub struct Machine {
    mem: Vec<usize>,
    r_a: usize,
    r_c: usize,
    r_d: usize,
    halted: bool,
}

impl View for Machine {
    type V = VmState;

    closed spec fn view(&self) -> VmState {
        VmState { mem: self.mem@, a: self.r_a, c: self.r_c, d: self.r_d, halted: self.halted }
    }
}

impl Machine {
    /// Well-formedness of the machine, as of its mathematical state.
    pub open spec fn wf(self) -> bool {
        state_wf(self@)
    }

    /// Build a machine over a loaded memory image, with all three
    /// registers at zero and execution not yet halted.
    pub fn new(mem: Vec<usize>) -> (m: Machine)
        requires
            mem@.len() == MEMORY_SIZE,
            forall|k: int| 0 <= k < MEMORY_SIZE ==> (#[trigger] mem@[k]) < MEMORY_SIZE,
        ensures
            m.wf(),
            (m@ == VmState { mem: mem@, a: 0usize, c: 0usize, d: 0usize, halted: false }),
    {
        Machine { mem, r_a: 0, r_c: 0, r_d: 0, halted: false }
    }

    /// The data register.
    pub fn data_register(&self) -> (r: usize)
        ensures
            r == self@.a,
    {
        self.r_a
    }

    /// The code pointer.
    pub fn code_pointer(&self) -> (r: usize)
        ensures
            r == self@.c,
    {
        self.r_c
    }

    /// The data pointer.
    pub fn data_pointer(&self) -> (r: usize)
        ensures
            r == self@.d,
    {
        self.r_d
    }

    /// Whether the machine has halted.
    pub fn is_halted(&self) -> (r: bool)
        ensures
            r == self@.halted,
    {
        self.halted
    }

    /// The value of one memory cell.
    pub fn cell(&self, i: usize) -> (r: usize)
        requires
            self.wf(),
            i < MEMORY_SIZE,
        ensures
            r == self@.mem[i as int],
    {
        self.mem[i]
    }

    /// Whether the next cycle is an input instruction, so that the
    /// caller should supply the next byte of the input stream to
    /// [`Machine::step`].
    pub fn needs_input(&self) -> (r: bool)
        requires
            self.wf(),
        ensures
            r == needs_input_spec(self@),
    {
        if self.halted {
            return false;
        }
        let cell: usize = self.mem[self.r_c];
        if !is_printable(cell) {
            return false;
        }
        let op: u8 = decode_table((cell - 33 + self.r_c) % 94);
        op == OP_INPUT
    }

    /// Execute one cycle: exactly [`step_spec`] of the previous state
    /// and the given input byte (`None` for end-of-stream; the byte is
    /// read only when the cycle is an input instruction).
    pub fn step(&mut self, input: Option<u8>) -> (r: StepResult)
        requires
            old(self).wf(),
        ensures
            final(self).wf(),
            ((final(self)@, r) == step_spec(old(self)@, input)),
    {
        proof {
            reveal(step_spec);
        }
        if self.halted {
            return StepResult::Halt;
        }
        let cell: usize = self.mem[self.r_c];
        if !is_printable(cell) {
            self.halted = true;
            return StepResult::Halt;
        }
        let op: u8 = decode_table((cell - 33 + self.r_c) % 94);
        if op == OP_STOP {
            self.halted = true;
            return StepResult::Halt;
        }
        let mut output: Option<u8> = None;
        if op == OP_JUMP_DATA {
            self.r_d = self.mem[self.r_d];
        } else if op == OP_JUMP_CODE {
            let t: usize = self.mem[self.r_d];
            if !is_printable(self.mem[t]) {
                self.halted = true;
                return StepResult::Fault;
            }
            self.r_c = t;
        } else if op == OP_ROTATE {
            let v: usize = tri_rotate(self.mem[self.r_d]);
            if self.r_d == self.r_c && !is_printable(v) {
                self.halted = true;
                return StepResult::Fault;
            }
            self.r_a = v;
            self.mem.set(self.r_d, v);
        } else if op == OP_CRAZY {
            let v: usize = crazy_op(self.r_a, self.mem[self.r_d]);
            if self.r_d == self.r_c && !is_printable(v) {
                self.halted = true;
                return StepResult::Fault;
            }
            self.r_a = v;
            self.mem.set(self.r_d, v);
        } else if op == OP_OUTPUT {
            output = Some((self.r_a % 256) as u8);
        } else if op == OP_INPUT {
            self.r_a = match input {
                Some(b) => b as usize,
                None => MEMORY_SIZE - 1,
            };
        }
        let cur: usize = self.mem[self.r_c];
        let repl: u8 = mutate_table(cur - 33);
        self.mem.set(self.r_c, repl as usize);
        self.r_c = (self.r_c + 1) % MEMORY_SIZE;
        self.r_d = (self.r_d + 1) % MEMORY_SIZE;
        match output {
            Some(b) => StepResult::Output(b),
            None => StepResult::Continue,
        }
    }

    /// Run at most `fuel` cycles, reading input bytes from `input` and
    /// collecting the emitted bytes: exactly [`run_spec`] of the
    /// previous state.
    #[verifier::rlimit(100)]
    #[verifier::loop_isolation(false)]
    pub fn execute(&mut self, input: &Vec<u8>, fuel: usize) -> (r: (Vec<u8>, RunStatus))
        requires
            old(self).wf(),
        ensures
            final(self).wf(),
            ({
                let (s_end, out, status) = run_spec(old(self)@, input@, fuel as nat);
                final(self)@ == s_end && r.0@ == out && r.1 == status
            }),
    {
        let ghost s0: VmState = self@;
        let mut out: Vec<u8> = Vec::new();
        let mut ip: usize = 0;
        let mut left: usize = fuel;
        proof {
            assert(input@.skip(0) =~= input@);
            let (s_end, o, st) = run_spec(s0, input@, fuel as nat);
            assert(Seq::<u8>::empty() + o =~= o);
        }
        loop
            invariant
                self.wf(),
                ip <= input@.len(),
                run_spec(s0, input@, fuel as nat) == ({
                    let (s_end, o, st) = run_spec(self@, input@.skip(ip as int), left as nat);
                    (s_end, out@ + o, st)
                }),
            decreases left,
        {
            if left == 0 {
                proof {
                    assert(out@ + Seq::<u8>::empty() =~= out@);
                }
                return (out, RunStatus::OutOfFuel);
            }
            let ghost prev: VmState = self@;
            let ghost remaining: Seq<u8> = input@.skip(ip as int);
            let inp: Option<u8> = if self.needs_input() && ip < input.len() {
                let b: u8 = input[ip];
                ip = ip + 1;
                proof {
                    assert(remaining[0] == input@[ip as int - 1]);
                    assert(remaining.drop_first() =~= input@.skip(ip as int));
                }
                Some(b)
            } else {
                None
            };
            let r = self.step(inp);
            match r {
                StepResult::Halt => {
                    proof {
                        assert(out@ + Seq::<u8>::empty() =~= out@);
                    }
                    return (out, RunStatus::Halted);
                },
                StepResult::Fault => {
                    proof {
                        assert(out@ + Seq::<u8>::empty() =~= out@);
                    }
                    return (out, RunStatus::Faulted);
                },
                StepResult::Output(b) => {
                    proof {
                        let (s3, o, st) = run_spec(self@, input@.skip(ip as int), (left - 1) as nat);
                        assert(out@ + (seq![b] + o) =~= out@.push(b) + o);
                    }
                    out.push(b);
                },
                StepResult::Continue => {},
            }
            left = left - 1;
        }
    }
}

/// The machine halts when the code pointer rests on a cell outside the
/// printable range, with registers and memory untouched, whatever input
/// is offered and without any stop instruction being involved.
pub proof fn lemma_halt_on_unprintable(s: VmState, input: Option<u8>)
    requires
        !s.halted,
        !spec_printable(fetch(s) as int),
    ensures
        (step_spec(s, input) == (VmState { halted: true, ..s }, StepResult::Halt)),
{
    reveal(step_spec);
}

/// An input instruction at end-of-stream loads the largest cell value,
/// 59048, into the data register, and the cycle completes normally.
pub proof fn lemma_input_at_end_of_stream(s: VmState)
    requires
        state_wf(s),
        needs_input_spec(s),
    ensures
        step_spec(s, None).0.a == MEMORY_SIZE - 1,
        step_spec(s, None).1 == StepResult::Continue,
{
    reveal(step_spec);
}

/// A cycle whose decoded instruction is a no-op still rewrites the
/// executed cell through the mutate table and advances both pointers,
/// exactly as a recognized instruction would.
pub proof fn lemma_nop_step(s: VmState, input: Option<u8>)
    requires
        state_wf(s),
        vm_running(s),
        cur_opcode(s) != OP_JUMP_DATA,
        cur_opcode(s) != OP_JUMP_CODE,
        cur_opcode(s) != OP_ROTATE,
        cur_opcode(s) != OP_CRAZY,
        cur_opcode(s) != OP_OUTPUT,
        cur_opcode(s) != OP_INPUT,
        cur_opcode(s) != OP_STOP,
    ensures
        (step_spec(s, input) == (
            VmState {
                mem: s.mem.update(s.c as int, mutate_entry(fetch(s) - 33) as usize),
                a: s.a,
                c: ((s.c + 1) % (MEMORY_SIZE as int)) as usize,
                d: ((s.d + 1) % (MEMORY_SIZE as int)) as usize,
                halted: false,
            },
            StepResult::Continue,
        )),
{
    reveal(step_spec);
}

/// One cycle preserves well-formedness of the machine state.
pub proof fn lemma_step_preserves_wf(s: VmState, input: Option<u8>)
    requires
        state_wf(s),
    ensures
        state_wf(step_spec(s, input).0),
{
    reveal(step_spec);
    crate::trits::lemma_rotate_in_range(s.mem[s.d as int] as int);
    crate::trits::lemma_crazy_in_range(s.a as int, s.mem[s.d as int] as int);
}

} // verus!
