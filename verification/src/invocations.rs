//! Compiling one invocation of a concrete library function: from the places
//! where its arguments live to instructions, relocations, and the places
//! where the results of each branch live.

use crate::array::ProgramInfo;
use crate::ids::StatementIdx;
use crate::instructions::instructions_view;
use crate::instructions::Instruction;
use crate::instructions::InstructionView;
use crate::references::CellExpressionView;
use crate::references::ReferenceExpression;
use crate::relocations::RelocationEntry;
use vstd::prelude::*;

verus! {

/// Why an invocation could not be compiled.
#[derive(Clone, Copy, Debug, PartialEq, Eq, Structural)]
pub enum InvocationError {
    /// The invocation has not the number of arguments that the function takes.
    WrongNumberOfArguments { expected: usize, actual: usize },
    /// An argument lives in a place of a form that its parameter cannot take.
    InvalidReferenceExpressionForArgument,
    /// A constant argument of the function is out of range.
    InvalidGenericArg,
}

/// By how many words a branch advances the allocation pointer, as the
/// analysis of allocation-pointer changes classifies it.
#[derive(Clone, Copy, Debug, PartialEq, Eq, Structural)]
pub enum ApChange {
    /// By exactly this many words.
    Known(usize),
    /// By a number of words that is not known when the code is compiled.
    Unknown,
}

/// Where a branch of an invocation continues.
#[derive(Clone, Copy, Debug, PartialEq, Eq, Structural)]
pub enum BranchTarget {
    /// At the next statement.
    Fallthrough,
    /// At the given statement.
    Statement(StatementIdx),
}

/// What one branch of a compiled invocation leaves behind.
#[derive(Debug, PartialEq, Eq)]
pub struct BranchChanges {
    /// Where each result lives.
    pub refs: Vec<ReferenceExpression>,
    /// By how many words the branch advanced the allocation pointer.
    pub ap_change: ApChange,
}

pub struct BranchChangesView {
    pub refs: Seq<Seq<CellExpressionView>>,
    pub ap_change: ApChange,
}

/// The references of a list, each as what it stands for.
pub open spec fn references_view(refs: Seq<ReferenceExpression>) -> Seq<Seq<CellExpressionView>> {
    refs.map_values(|r: ReferenceExpression| r@)
}

impl View for BranchChanges {
    type V = BranchChangesView;

    open spec fn view(&self) -> BranchChangesView {
        BranchChangesView { refs: references_view(self.refs@), ap_change: self.ap_change }
    }
}

/// The code of one invocation.
#[derive(Debug, PartialEq, Eq)]
pub struct CompiledInvocation {
    /// The instructions, in order.
    pub instructions: Vec<Instruction>,
    /// The targets that are to be filled in later, each with the position
    /// of its instruction in `instructions`.
    pub relocations: Vec<RelocationEntry>,
    /// What each branch leaves behind, in the order of the branches.
    pub results: Vec<BranchChanges>,
}

pub struct CompiledInvocationView {
    pub instructions: Seq<InstructionView>,
    pub relocations: Seq<RelocationEntry>,
    pub results: Seq<BranchChangesView>,
}

impl View for CompiledInvocation {
    type V = CompiledInvocationView;

    open spec fn view(&self) -> CompiledInvocationView {
        CompiledInvocationView {
            instructions: instructions_view(self.instructions@),
            relocations: self.relocations@,
            results: self.results@.map_values(|b: BranchChanges| b@),
        }
    }
}

/// The result of compiling, with the code as what it stands for.
pub open spec fn compiled_view(r: Result<CompiledInvocation, InvocationError>) -> Result<
    CompiledInvocationView,
    InvocationError,
> {
    match r {
        Ok(compiled) => Ok(compiled@),
        Err(e) => Err(e),
    }
}

/// What an invocation compiler is given beside the library function: the
/// program, where the branches of the invocation continue, what the
/// analysis of allocation-pointer changes says of each branch, and where
/// the arguments live.
pub struct CompiledInvocationBuilder<'a> {
    pub program_info: &'a ProgramInfo,
    pub branches: &'a [BranchTarget],
    pub ap_changes: &'a [ApChange],
    pub refs: &'a [ReferenceExpression],
}

/// The branches of a list of results: each with the places of its results
/// and the change of the allocation pointer that stands at its position.
pub open spec fn branch_changes(
    ap_changes: Seq<ApChange>,
    output_expressions: Seq<Seq<Seq<CellExpressionView>>>,
) -> Seq<BranchChangesView> {
    Seq::new(
        output_expressions.len(),
        |i: int| BranchChangesView { refs: output_expressions[i], ap_change: ap_changes[i] },
    )
}

/// The results of several branches, each as what it stands for.
pub open spec fn outputs_view(outputs: Seq<Vec<ReferenceExpression>>) -> Seq<
    Seq<Seq<CellExpressionView>>,
> {
    outputs.map_values(|o: Vec<ReferenceExpression>| references_view(o@))
}

impl<'a> CompiledInvocationBuilder<'a> {
    /// Whether the invocation has two branches, of which the first falls
    /// through and the second continues at a statement.
    pub open spec fn has_one_jump_target(&self) -> bool {
        self.branches@.len() == 2 && self.branches@[0] is Fallthrough
            && self.branches@[1] is Statement
    }

    /// The statement at which the second branch continues.
    pub open spec fn jump_target(&self) -> StatementIdx {
        self.branches@[1]->Statement_0
    }

    /// Whether `get_non_fallthrough_statement_id` can be asked.
    pub fn has_non_fallthrough_statement_id(&self) -> (r: bool)
        ensures
            r == self.has_one_jump_target(),
    {
        self.branches.len() == 2 && match (self.branches[0], self.branches[1]) {
            (BranchTarget::Fallthrough, BranchTarget::Statement(_)) => true,
            _ => false,
        }
    }

    /// Puts together the code of the invocation. The analysis must have
    /// classified as many branches as there are lists of results.
    pub fn build(
        self,
        instructions: Vec<Instruction>,
        relocations: Vec<RelocationEntry>,
        output_expressions: Vec<Vec<ReferenceExpression>>,
    ) -> (r: CompiledInvocation)
        requires
            self.ap_changes@.len() == output_expressions@.len(),
        ensures
            r@ == (CompiledInvocationView {
                instructions: instructions_view(instructions@),
                relocations: relocations@,
                results: branch_changes(self.ap_changes@, outputs_view(output_expressions@)),
            }),
    {
        let ghost expected = branch_changes(self.ap_changes@, outputs_view(output_expressions@));
        let mut outputs = output_expressions;
        let mut results: Vec<BranchChanges> = Vec::new();
        while outputs.len() > 0
            invariant
                outputs@.len() <= output_expressions@.len(),
                outputs@ == output_expressions@.take(outputs@.len() as int),
                self.ap_changes@.len() == output_expressions@.len(),
                results@.len() == output_expressions@.len() - outputs@.len(),
                forall|j: int|
                    0 <= j < results@.len() ==> (#[trigger] results@[j])@ == expected[
                        outputs@.len() + j
                    ],
                expected == branch_changes(self.ap_changes@, outputs_view(output_expressions@)),
            decreases outputs@.len(),
        {
            let at = outputs.len() - 1;
            let ghost before = results@;
            let ghost longer = outputs@;
            let refs = match outputs.pop() {
                Some(refs) => refs,
                None => unreached(),
            };
            assert(outputs@ =~= output_expressions@.take(at as int));
            assert(refs == output_expressions@[at as int]);
            let changes = BranchChanges { refs, ap_change: self.ap_changes[at] };
            results.insert(0, changes);
            assert forall|j: int| 0 <= j < results@.len() implies (#[trigger] results@[j])@
                == expected[outputs@.len() + j] by {
                if j > 0 {
                    assert(results@[j] == before[j - 1]);
                }
            }
        }
        let r = CompiledInvocation { instructions, relocations, results };
        assert(r@.results =~= expected);
        r
    }

    /// Puts together an invocation that emits no code: its one branch
    /// only says where the results live.
    pub fn build_only_reference_changes(
        self,
        output_expressions: Vec<ReferenceExpression>,
    ) -> (r: CompiledInvocation)
        requires
            self.ap_changes@.len() == 1,
        ensures
            r@ == (CompiledInvocationView {
                instructions: Seq::empty(),
                relocations: Seq::empty(),
                results: seq![
                    BranchChangesView {
                        refs: references_view(output_expressions@),
                        ap_change: self.ap_changes@[0],
                    },
                ],
            }),
    {
        let instructions: Vec<Instruction> = Vec::new();
        let relocations: Vec<RelocationEntry> = Vec::new();
        let ghost refs = references_view(output_expressions@);
        let outputs = vec![output_expressions];
        assert(outputs_view(outputs@) =~= seq![refs]);
        assert(instructions_view(instructions@) =~= Seq::empty());
        let r = self.build(instructions, relocations, outputs);
        assert(r@.results =~= seq![
            BranchChangesView { refs, ap_change: self.ap_changes@[0] },
        ]);
        r
    }
}

/// The statement at which the branch that does not fall through continues,
/// for an invocation with one such branch after one that falls through.
pub fn get_non_fallthrough_statement_id(builder: &CompiledInvocationBuilder<'_>) -> (r:
    StatementIdx)
    requires
        builder.has_one_jump_target(),
    ensures
        r == builder.jump_target(),
{
    match builder.branches[1] {
        BranchTarget::Statement(target) => target,
        BranchTarget::Fallthrough => unreached(),
    }
}

} // verus!
