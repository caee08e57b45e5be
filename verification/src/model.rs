//! Mathematical model of the machine: its view as a pair of sequences and
//! the specification-level transition taken by each instruction.
//!
//! Each `spec_` function below says exactly what the handler of the same
//! name does to the machine state, which bytes it writes, and which result
//! it returns; [`spec_step`] composes them into the dispatch transition and
//! [`spec_run`] iterates that transition.  The output recorded here is the
//! output the step intends; whether the sink accepts it is the sink's own
//! affair, and the executable contracts say what holds either way.

use vstd::prelude::*;

use crate::machine::MachineError;
use crate::output::spec_as_signed;
use crate::output::spec_decimal;
use crate::output::spec_is_scalar;
use crate::output::spec_utf8;
use crate::words::spec_read_word;
use crate::words::spec_sign_extend16;
use crate::words::spec_store_word;

verus! {

/// Number of bytes in the machine memory.
pub const MEMORY_SIZE: usize = 4096;

/// Number of registers; register 0 is the instruction pointer.
pub const NREGS: usize = 16;

/// The abstract state of a [`crate::machine::Machine`]: the memory bytes and
/// the register file.
#[verifier::ext_equal]
pub struct MachineView {
    pub mem: Seq<u8>,
    pub regs: Seq<u32>,
}

impl MachineView {
    /// A view taken of a real machine always has full-size memory and
    /// exactly `NREGS` registers.
    pub open spec fn wf(self) -> bool {
        &&& self.mem.len() == MEMORY_SIZE
        &&& self.regs.len() == NREGS
    }
}

/// What one instruction handler does: the state it leaves behind, the bytes
/// it hands to the sink (empty for most instructions), and its result.
#[verifier::ext_equal]
pub struct EffectSpec {
    pub post: MachineView,
    pub out: Seq<u8>,
    pub result: Result<(), MachineError>,
}

/// What one dispatch step does; `Ok(true)` means the program halted.
#[verifier::ext_equal]
pub struct StepSpec {
    pub post: MachineView,
    pub out: Seq<u8>,
    pub result: Result<bool, MachineError>,
}

/// Whether `op` names an instruction.
pub open spec fn spec_known_op(op: u8) -> bool {
    1 <= op && op <= 8
}

/// The encoded width in bytes of the instruction named by `op`.
pub open spec fn spec_width(op: u8) -> int
    recommends
        spec_known_op(op),
{
    if op == 1 || op == 4 || op == 5 {
        4
    } else if op == 2 || op == 3 {
        3
    } else if op == 6 || op == 8 {
        2
    } else {
        1
    }
}

/// The register file after the instruction pointer advanced by `width`.
pub open spec fn spec_advanced(pre: MachineView, width: int) -> Seq<u32>
    recommends
        pre.wf(),
        pre.regs[0] + width <= u32::MAX,
{
    pre.regs.update(0, (pre.regs[0] + width) as u32)
}

/// move-if (opcode 1, `1 regA regB regC`): if register `regC` holds a
/// non-zero value, copy register `regB` into register `regA`; otherwise
/// leave every register but the instruction pointer unchanged.  All three
/// operands are validated before the condition is examined; register
/// values are read after the instruction pointer advanced.
pub open spec fn spec_move_if(pre: MachineView) -> EffectSpec
    recommends
        pre.wf(),
        pre.regs[0] + 4 <= MEMORY_SIZE,
{
    let ip = pre.regs[0] as int;
    let a = pre.mem[ip + 1];
    let b = pre.mem[ip + 2];
    let c = pre.mem[ip + 3];
    let regs1 = spec_advanced(pre, 4);
    if a > 15 || b > 15 || c > 15 {
        EffectSpec {
            post: MachineView { mem: pre.mem, regs: regs1 },
            out: Seq::empty(),
            result: Err(MachineError::RegisterOutOfRange),
        }
    } else if regs1[c as int] != 0 {
        EffectSpec {
            post: MachineView { mem: pre.mem, regs: regs1.update(a as int, regs1[b as int]) },
            out: Seq::empty(),
            result: Ok(()),
        }
    } else {
        EffectSpec {
            post: MachineView { mem: pre.mem, regs: regs1 },
            out: Seq::empty(),
            result: Ok(()),
        }
    }
}

/// store (opcode 2, `2 regA regB`): write register `regB` as a
/// little-endian word to memory at the address held in register `regA`.
pub open spec fn spec_store(pre: MachineView) -> EffectSpec
    recommends
        pre.wf(),
        pre.regs[0] + 3 <= MEMORY_SIZE,
{
    let ip = pre.regs[0] as int;
    let a = pre.mem[ip + 1];
    let b = pre.mem[ip + 2];
    let regs1 = spec_advanced(pre, 3);
    if a > 15 || b > 15 {
        EffectSpec {
            post: MachineView { mem: pre.mem, regs: regs1 },
            out: Seq::empty(),
            result: Err(MachineError::RegisterOutOfRange),
        }
    } else if regs1[a as int] + 4 > MEMORY_SIZE {
        EffectSpec {
            post: MachineView { mem: pre.mem, regs: regs1 },
            out: Seq::empty(),
            result: Err(MachineError::AddressOutOfBounds),
        }
    } else {
        EffectSpec {
            post: MachineView {
                mem: spec_store_word(pre.mem, regs1[a as int] as int, regs1[b as int]),
                regs: regs1,
            },
            out: Seq::empty(),
            result: Ok(()),
        }
    }
}

/// load (opcode 3, `3 regA regB`): read a little-endian word from memory at
/// the address held in register `regB` into register `regA`.
pub open spec fn spec_load(pre: MachineView) -> EffectSpec
    recommends
        pre.wf(),
        pre.regs[0] + 3 <= MEMORY_SIZE,
{
    let ip = pre.regs[0] as int;
    let a = pre.mem[ip + 1];
    let b = pre.mem[ip + 2];
    let regs1 = spec_advanced(pre, 3);
    if a > 15 || b > 15 {
        EffectSpec {
            post: MachineView { mem: pre.mem, regs: regs1 },
            out: Seq::empty(),
            result: Err(MachineError::RegisterOutOfRange),
        }
    } else if regs1[b as int] + 4 > MEMORY_SIZE {
        EffectSpec {
            post: MachineView { mem: pre.mem, regs: regs1 },
            out: Seq::empty(),
            result: Err(MachineError::AddressOutOfBounds),
        }
    } else {
        EffectSpec {
            post: MachineView {
                mem: pre.mem,
                regs: regs1.update(a as int, spec_read_word(pre.mem, regs1[b as int] as int)),
            },
            out: Seq::empty(),
            result: Ok(()),
        }
    }
}

/// load-immediate (opcode 4, `4 regA L H`): sign-extend the 16-bit value
/// `(H << 8) | L` to 32 bits and store it in register `regA`.
pub open spec fn spec_loadimm(pre: MachineView) -> EffectSpec
    recommends
        pre.wf(),
        pre.regs[0] + 4 <= MEMORY_SIZE,
{
    let ip = pre.regs[0] as int;
    let a = pre.mem[ip + 1];
    let l = pre.mem[ip + 2];
    let h = pre.mem[ip + 3];
    let regs1 = spec_advanced(pre, 4);
    if a > 15 {
        EffectSpec {
            post: MachineView { mem: pre.mem, regs: regs1 },
            out: Seq::empty(),
            result: Err(MachineError::RegisterOutOfRange),
        }
    } else {
        EffectSpec {
            post: MachineView { mem: pre.mem, regs: regs1.update(a as int, spec_sign_extend16(l, h)) },
            out: Seq::empty(),
            result: Ok(()),
        }
    }
}

/// subtract (opcode 5, `5 regA regB regC`): store register `regB` minus
/// register `regC` into register `regA`, wrapping on overflow.
pub open spec fn spec_sub(pre: MachineView) -> EffectSpec
    recommends
        pre.wf(),
        pre.regs[0] + 4 <= MEMORY_SIZE,
{
    let ip = pre.regs[0] as int;
    let a = pre.mem[ip + 1];
    let b = pre.mem[ip + 2];
    let c = pre.mem[ip + 3];
    let regs1 = spec_advanced(pre, 4);
    if a > 15 || b > 15 || c > 15 {
        EffectSpec {
            post: MachineView { mem: pre.mem, regs: regs1 },
            out: Seq::empty(),
            result: Err(MachineError::RegisterOutOfRange),
        }
    } else {
        EffectSpec {
            post: MachineView {
                mem: pre.mem,
                regs: regs1.update(
                    a as int,
                    vstd::wrapping::u32_specs::wrapping_sub(regs1[b as int], regs1[c as int]),
                ),
            },
            out: Seq::empty(),
            result: Ok(()),
        }
    }
}

/// output-char (opcode 6, `6 regA`): write the UTF-8 encoding of the
/// Unicode scalar value held (as the full 32-bit register value) in
/// register `regA` to the sink.
pub open spec fn spec_out(pre: MachineView) -> EffectSpec
    recommends
        pre.wf(),
        pre.regs[0] + 2 <= MEMORY_SIZE,
{
    let ip = pre.regs[0] as int;
    let a = pre.mem[ip + 1];
    let regs1 = spec_advanced(pre, 2);
    if a > 15 {
        EffectSpec {
            post: MachineView { mem: pre.mem, regs: regs1 },
            out: Seq::empty(),
            result: Err(MachineError::RegisterOutOfRange),
        }
    } else if !spec_is_scalar(regs1[a as int]) {
        EffectSpec {
            post: MachineView { mem: pre.mem, regs: regs1 },
            out: Seq::empty(),
            result: Err(MachineError::InvalidCodePoint),
        }
    } else {
        EffectSpec {
            post: MachineView { mem: pre.mem, regs: regs1 },
            out: spec_utf8(regs1[a as int]),
            result: Ok(()),
        }
    }
}

/// output-number (opcode 8, `8 regA`): write the signed decimal text of
/// register `regA`, read as a 32-bit two's-complement integer, to the sink.
pub open spec fn spec_out_number(pre: MachineView) -> EffectSpec
    recommends
        pre.wf(),
        pre.regs[0] + 2 <= MEMORY_SIZE,
{
    let ip = pre.regs[0] as int;
    let a = pre.mem[ip + 1];
    let regs1 = spec_advanced(pre, 2);
    if a > 15 {
        EffectSpec {
            post: MachineView { mem: pre.mem, regs: regs1 },
            out: Seq::empty(),
            result: Err(MachineError::RegisterOutOfRange),
        }
    } else {
        EffectSpec {
            post: MachineView { mem: pre.mem, regs: regs1 },
            out: spec_decimal(spec_as_signed(regs1[a as int])),
            result: Ok(()),
        }
    }
}

/// One dispatch step: bounds-check the instruction pointer, decode the
/// opcode, check that the whole instruction fits in memory, then take the
/// instruction's effect.  `Ok(true)` reports a halt, `Ok(false)` that
/// execution continues.
pub open spec fn spec_step(pre: MachineView) -> StepSpec
    recommends
        pre.wf(),
{
    let pc = pre.regs[0] as int;
    if pc >= MEMORY_SIZE {
        StepSpec {
            post: pre,
            out: Seq::empty(),
            result: Err(MachineError::ProgramCounterOutOfBounds),
        }
    } else {
        let op = pre.mem[pc];
        if !spec_known_op(op) {
            StepSpec { post: pre, out: Seq::empty(), result: Err(MachineError::UnknownOpcode) }
        } else if pc + spec_width(op) > MEMORY_SIZE {
            StepSpec {
                post: pre,
                out: Seq::empty(),
                result: Err(MachineError::ProgramCounterOutOfBounds),
            }
        } else if op == 7 {
            StepSpec {
                post: MachineView { mem: pre.mem, regs: spec_advanced(pre, 1) },
                out: Seq::empty(),
                result: Ok(true),
            }
        } else {
            let e = if op == 1 {
                spec_move_if(pre)
            } else if op == 2 {
                spec_store(pre)
            } else if op == 3 {
                spec_load(pre)
            } else if op == 4 {
                spec_loadimm(pre)
            } else if op == 5 {
                spec_sub(pre)
            } else if op == 6 {
                spec_out(pre)
            } else {
                spec_out_number(pre)
            };
            StepSpec {
                post: e.post,
                out: e.out,
                result: match e.result {
                    Ok(()) => Ok(false),
                    Err(er) => Err(er),
                },
            }
        }
    }
}

/// A run after a bounded number of steps: the state reached, every byte the
/// run intended for the sink, and the outcome so far.  `None` means the
/// program is still running; `Some(Ok(()))` that it halted; `Some(Err(e))`
/// that step `e` failed.  Once the outcome is decided, more fuel changes
/// nothing.
#[verifier::ext_equal]
pub struct RunSpec {
    pub post: MachineView,
    pub out: Seq<u8>,
    pub outcome: Option<Result<(), MachineError>>,
}

/// The run of `fuel` dispatch steps from `pre`, on a sink that accepts
/// every write.
pub open spec fn spec_run(pre: MachineView, fuel: nat) -> RunSpec
    recommends
        pre.wf(),
    decreases fuel,
{
    if fuel == 0 {
        RunSpec { post: pre, out: Seq::empty(), outcome: None }
    } else {
        let q = spec_run(pre, (fuel - 1) as nat);
        match q.outcome {
            Some(_) => q,
            None => {
                let s = spec_step(q.post);
                RunSpec {
                    post: s.post,
                    out: q.out + s.out,
                    outcome: match s.result {
                        Ok(true) => Some(Ok(())),
                        Ok(false) => None,
                        Err(er) => Some(Err(er)),
                    },
                }
            },
        }
    }
}

/// A dispatch step of itself never reports `OutputFailed` (only a sink
/// can), an output-producing step is one that succeeds and continues, and a
/// failing step produces no output.
pub proof fn lemma_step_output(pre: MachineView)
    ensures
        spec_step(pre).result != Err::<bool, MachineError>(MachineError::OutputFailed),
        spec_step(pre).result is Err ==> spec_step(pre).out.len() == 0,
        spec_step(pre).out.len() > 0 ==> spec_step(pre).result == Ok::<bool, MachineError>(false),
{
}

/// Halted and failed runs are terminal: once a run's outcome is decided,
/// more fuel changes neither the outcome, the state, nor the output.
pub proof fn lemma_run_stable(pre: MachineView, f: nat, g: nat)
    requires
        f <= g,
        spec_run(pre, f).outcome is Some,
    ensures
        spec_run(pre, g) == spec_run(pre, f),
    decreases g,
{
    if f < g {
        lemma_run_stable(pre, f, (g - 1) as nat);
    }
}

} // verus!
