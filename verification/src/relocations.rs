//! Targets that are filled in once the final place of every instruction is
//! known.

use crate::ids::StatementIdx;
use vstd::prelude::*;

verus! {

/// What is to be written into an instruction.
#[derive(Clone, Copy, Debug, PartialEq, Eq, Structural)]
pub enum Relocation {
    /// The distance from the instruction to the code of the given statement.
    RelativeStatementId(StatementIdx),
}

/// A relocation and the instruction, by its position in the code of one
/// invocation, that it is to be written into.
#[derive(Clone, Copy, Debug, PartialEq, Eq, Structural)]
pub struct RelocationEntry {
    pub instruction_idx: usize,
    pub relocation: Relocation,
}

} // verus!
