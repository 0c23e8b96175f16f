//! The instructions that the builder emits, and the hints that ride on them.
//! How an instruction is encoded is decided elsewhere; here an instruction
//! is the record of what was asked for.

use crate::operand::CellRef;
use crate::operand::DerefOrImmediate;
use crate::operand::DerefOrImmediateView;
use crate::operand::ResOperand;
use crate::operand::ResOperandView;
use vstd::prelude::*;

verus! {

/// A side effect that the machine's host performs before the instruction
/// that carries the hint runs.
#[derive(Debug, PartialEq, Eq)]
pub enum Hint {
    /// Performs the system call whose request starts at `system`.
    SystemCall { system: ResOperand },
}

pub enum HintView {
    SystemCall { system: ResOperandView },
}

#[derive(Debug, PartialEq, Eq)]
pub enum InstructionBody {
    /// Asserts that the cell `a` equals `b`.
    AssertEq { a: CellRef, b: ResOperand },
    /// Jumps by `jump_offset` when the cell `condition` is not zero.
    Jnz { jump_offset: DerefOrImmediate, condition: CellRef },
}

pub enum InstructionBodyView {
    AssertEq { a: CellRef, b: ResOperandView },
    Jnz { jump_offset: DerefOrImmediateView, condition: CellRef },
}

/// One instruction: what it does, whether it advances the allocation pointer
/// by one word afterwards, and the hints that run before it.
#[derive(Debug, PartialEq, Eq)]
pub struct Instruction {
    pub body: InstructionBody,
    pub inc_ap: bool,
    pub hints: Vec<Hint>,
}

pub struct InstructionView {
    pub body: InstructionBodyView,
    pub inc_ap: bool,
    pub hints: Seq<HintView>,
}

impl View for Hint {
    type V = HintView;

    open spec fn view(&self) -> HintView {
        match *self {
            Hint::SystemCall { system } => HintView::SystemCall { system: system@ },
        }
    }
}

impl View for InstructionBody {
    type V = InstructionBodyView;

    open spec fn view(&self) -> InstructionBodyView {
        match *self {
            InstructionBody::AssertEq { a, b } => InstructionBodyView::AssertEq { a, b: b@ },
            InstructionBody::Jnz { jump_offset, condition } => InstructionBodyView::Jnz {
                jump_offset: jump_offset@,
                condition,
            },
        }
    }
}

/// The hints of a list, each as what it stands for.
pub open spec fn hints_view(hints: Seq<Hint>) -> Seq<HintView> {
    hints.map_values(|h: Hint| h@)
}

impl View for Instruction {
    type V = InstructionView;

    open spec fn view(&self) -> InstructionView {
        InstructionView { body: self.body@, inc_ap: self.inc_ap, hints: hints_view(self.hints@) }
    }
}

/// The instructions of a list, each as what it stands for.
pub open spec fn instructions_view(instructions: Seq<Instruction>) -> Seq<InstructionView> {
    instructions.map_values(|i: Instruction| i@)
}

/// The positions, in rising order, of the jumps in a list of instructions.
pub open spec fn jump_indices(instructions: Seq<InstructionView>) -> Seq<int>
    decreases instructions.len(),
{
    if instructions.len() == 0 {
        Seq::empty()
    } else {
        let before = jump_indices(instructions.drop_last());
        if instructions.last().body is Jnz {
            before.push(instructions.len() - 1)
        } else {
            before
        }
    }
}

/// A list of jump positions has one entry for each jump, and every entry
/// names a jump of the list.
pub proof fn lemma_jump_indices(instructions: Seq<InstructionView>)
    ensures
        forall|k: int|
            0 <= k < jump_indices(instructions).len() ==> {
                let at = #[trigger] jump_indices(instructions)[k];
                0 <= at < instructions.len() && instructions[at].body is Jnz
            },
        forall|k: int, l: int|
            0 <= k < l < jump_indices(instructions).len() ==> jump_indices(instructions)[k]
                < jump_indices(instructions)[l],
        forall|at: int|
            0 <= at < instructions.len() && (#[trigger] instructions[at]).body is Jnz
                ==> jump_indices(instructions).contains(at),
    decreases instructions.len(),
{
    if instructions.len() > 0 {
        let shorter = instructions.drop_last();
        lemma_jump_indices(shorter);
        let before = jump_indices(shorter);
        let all = jump_indices(instructions);
        assert forall|at: int|
            0 <= at < instructions.len() && (#[trigger] instructions[at]).body is Jnz implies all.contains(
            at,
        ) by {
            if at < instructions.len() - 1 {
                assert(shorter[at] == instructions[at]);
                assert(before.contains(at));
                let k = choose|k: int| 0 <= k < before.len() && before[k] == at;
                assert(all[k] == at);
            } else {
                assert(all[all.len() - 1] == at);
            }
        }
        assert forall|k: int| 0 <= k < all.len() implies {
            let at = #[trigger] all[k];
            0 <= at < instructions.len() && instructions[at].body is Jnz
        } by {
            if k < before.len() {
                assert(all[k] == before[k]);
                assert(shorter[before[k]] == instructions[before[k]]);
            }
        }
    }
}

} // verus!
