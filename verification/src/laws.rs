//! Laws of the machine, each stated over the model for every allowed input
//! and proved once and for all.

use vstd::prelude::*;

use crate::machine::MachineError;
use crate::model::spec_advanced;
use crate::model::spec_known_op;
use crate::model::spec_move_if;
use crate::model::spec_step;
use crate::model::spec_width;
use crate::model::MachineView;
use crate::model::MEMORY_SIZE;
use crate::model::NREGS;

verus! {

/// Writing a register and reading the same register back yields exactly the
/// value written, for every register index in range.  (That an index above
/// 15 is rejected with `RegisterOutOfRange`, and changes nothing, is part
/// of `Machine::set_reg`'s own contract.)
pub proof fn lemma_register_roundtrip(regs: Seq<u32>, reg: u8, value: u32)
    requires
        regs.len() == NREGS,
        reg <= 15,
    ensures
        regs.update(reg as int, value)[reg as int] == value,
{
}

/// A step that fails before its handler is invoked — the instruction
/// pointer at or past the end of memory, an unknown opcode, or an
/// instruction whose width would read past the end of memory — mutates
/// neither a register nor a byte of memory, and writes nothing.
pub proof fn lemma_failed_dispatch_changes_nothing(pre: MachineView)
    requires
        pre.wf(),
        ({
            let pc = pre.regs[0] as int;
            pc >= MEMORY_SIZE || !spec_known_op(pre.mem[pc]) || pc + spec_width(pre.mem[pc])
                > MEMORY_SIZE
        }),
    ensures
        spec_step(pre).result is Err,
        spec_step(pre).post == pre,
        spec_step(pre).out.len() == 0,
{
}

/// A handler that fails has still advanced the instruction pointer by its
/// instruction's exact width, and has changed nothing else: an error means
/// "execution must stop here", not "the step had no effect".
pub proof fn lemma_failed_handler_keeps_ip_advance(pre: MachineView)
    requires
        pre.wf(),
        pre.regs[0] < MEMORY_SIZE,
        spec_known_op(pre.mem[pre.regs[0] as int]),
        pre.regs[0] + spec_width(pre.mem[pre.regs[0] as int]) <= MEMORY_SIZE,
        spec_step(pre).result is Err,
    ensures
        spec_step(pre).post.mem == pre.mem,
        spec_step(pre).post.regs == spec_advanced(pre, spec_width(pre.mem[pre.regs[0] as int])),
        spec_step(pre).out.len() == 0,
{
}

/// move-if on general-purpose operand registers: with a zero condition
/// register every register but the instruction pointer keeps its prior
/// value, and with a non-zero condition register the destination receives
/// exactly the source's prior value.
pub proof fn lemma_move_if_condition(pre: MachineView)
    requires
        pre.wf(),
        pre.regs[0] + 4 <= MEMORY_SIZE,
        1 <= pre.mem[pre.regs[0] + 1] <= 15,
        1 <= pre.mem[pre.regs[0] + 2] <= 15,
        1 <= pre.mem[pre.regs[0] + 3] <= 15,
    ensures
        spec_move_if(pre).result == Ok::<(), MachineError>(()),
        ({
            let a = pre.mem[pre.regs[0] + 1] as int;
            let b = pre.mem[pre.regs[0] + 2] as int;
            let c = pre.mem[pre.regs[0] + 3] as int;
            &&& pre.regs[c] == 0 ==> forall|i: int|
                1 <= i < NREGS ==> spec_move_if(pre).post.regs[i] == pre.regs[i]
            &&& pre.regs[c] != 0 ==> spec_move_if(pre).post.regs[a] == pre.regs[b]
        }),
{
}

} // verus!
