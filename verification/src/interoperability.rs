//! The invocation compilers of the contract-call system call and of the
//! storage address constant.

use crate::array::ArrayView;
use crate::array::ProgramInfo;
use crate::bigint::bigint_clone;
use crate::bigint::bigint_from_bytes_le;
use crate::bigint::bigint_value;
use crate::bigint::le_bytes_value;
use crate::builder::CasmBuildResult;
use crate::builder::CasmBuilder;
use crate::builder::StateView;
use crate::builder::Var;
use crate::instructions::instructions_view;
use crate::instructions::Hint;
use crate::instructions::HintView;
use crate::instructions::InstructionBodyView;
use crate::instructions::InstructionView;
use crate::invocations::compiled_view;
use crate::invocations::get_non_fallthrough_statement_id;
use crate::invocations::references_view;
use crate::invocations::ApChange;
use crate::invocations::BranchChangesView;
use crate::invocations::CompiledInvocation;
use crate::invocations::CompiledInvocationBuilder;
use crate::invocations::CompiledInvocationView;
use crate::invocations::InvocationError;
use crate::lib_func::ConcreteType;
use crate::lib_func::SignatureAndConstConcreteLibFunc;
use crate::lib_func::SignatureOnlyConcreteLibFunc;
use crate::operand::BinOpOperandView;
use crate::operand::CellRef;
use crate::operand::DerefOrImmediateView;
use crate::operand::Operation;
use crate::operand::Register;
use crate::operand::ResOperand;
use crate::operand::ResOperandView;
use crate::references::BinOpExpressionView;
use crate::references::CellExpression;
use crate::references::CellExpressionView;
use crate::references::FeltOperator;
use crate::references::ReferenceExpression;
use crate::ids::StatementIdx;
use crate::relocations::Relocation;
use crate::relocations::RelocationEntry;
use crate::storage::is_storage_address_const;
use crate::storage::storage_address_bound;
use num_bigint::BigInt;
use vstd::prelude::*;
use vstd::string::is_ascii_spec_bytes;
use vstd::string::StringSliceAdditionalSpecFns;

verus! {

/// The bytes of the name `call_contract`.
pub open spec fn call_contract_name_bytes() -> Seq<u8> {
    seq![99u8, 97u8, 108u8, 108u8, 95u8, 99u8, 111u8, 110u8, 116u8, 114u8, 97u8, 99u8, 116u8]
}

/// The number that tells the host which system call is asked for: the
/// bytes of the name `call_contract`, read as the base-256 digits of a
/// number, least significant first.
pub open spec fn call_contract_selector_value() -> int {
    le_bytes_value(call_contract_name_bytes())
}

/// The selector, written out.
pub proof fn lemma_call_contract_selector_value()
    ensures
        call_contract_selector_value() == 9221223673929037989702739452259int,
{
    let bytes = call_contract_name_bytes();
    assert(bytes.skip(0) =~= bytes);
    assert(bytes.skip(13) =~= Seq::<u8>::empty());
    crate::bigint::lemma_le_bytes_value_step(bytes, 12);
    crate::bigint::lemma_le_bytes_value_step(bytes, 11);
    crate::bigint::lemma_le_bytes_value_step(bytes, 10);
    crate::bigint::lemma_le_bytes_value_step(bytes, 9);
    crate::bigint::lemma_le_bytes_value_step(bytes, 8);
    crate::bigint::lemma_le_bytes_value_step(bytes, 7);
    crate::bigint::lemma_le_bytes_value_step(bytes, 6);
    crate::bigint::lemma_le_bytes_value_step(bytes, 5);
    crate::bigint::lemma_le_bytes_value_step(bytes, 4);
    crate::bigint::lemma_le_bytes_value_step(bytes, 3);
    crate::bigint::lemma_le_bytes_value_step(bytes, 2);
    crate::bigint::lemma_le_bytes_value_step(bytes, 1);
    crate::bigint::lemma_le_bytes_value_step(bytes, 0);
}

/// The selector of the contract-call system call.
pub fn call_contract_selector() -> (r: BigInt)
    ensures
        bigint_value(r) == call_contract_selector_value(),
{
    let name = "call_contract";
    proof {
        reveal_strlit("call_contract");
        is_ascii_spec_bytes(name);
        assert(name.spec_bytes() =~= call_contract_name_bytes());
    }
    bigint_from_bytes_le(name.as_bytes())
}

/// The name under which the state of the failure branch is recorded.
pub open spec fn failure_label() -> Seq<char> {
    "Failure"@
}

/// The cell that holds the base address of the buffer that a cursor points into.
pub open spec fn cursor_cell(cursor: ResOperandView) -> CellRef {
    match cursor {
        ResOperandView::Deref(cell) => cell,
        ResOperandView::BinOp(op) => op.a,
        _ => arbitrary(),
    }
}

/// How many words past the base a cursor stands.
pub open spec fn cursor_offset(cursor: ResOperandView) -> int {
    match cursor {
        ResOperandView::BinOp(op) => op.b->Immediate_0,
        _ => 0,
    }
}

/// Whether `cursor` points into a buffer in which the word under it and
/// `slack` more can be addressed.
pub open spec fn is_cursor(cursor: ResOperandView, slack: int) -> bool {
    match cursor {
        ResOperandView::Deref(_) => slack <= i16::MAX,
        ResOperandView::BinOp(op) => op.op is Add && op.b is Immediate && i16::MIN
            <= op.b->Immediate_0 <= i16::MAX && op.b->Immediate_0 + slack <= i16::MAX,
        _ => false,
    }
}

/// The cursor `words` words past the base held in `cell`.
pub open spec fn cursor_at(cell: CellRef, words: int) -> ResOperandView {
    ResOperandView::BinOp(
        BinOpOperandView { op: Operation::Add, a: cell, b: DerefOrImmediateView::Immediate(words) },
    )
}

/// The word `words` words past the base held in `cell`.
pub open spec fn word_at(cell: CellRef, words: int) -> ResOperandView {
    ResOperandView::DoubleDeref(cell, words as i16)
}

/// The instruction that asserts that `value` equals the word `words` words
/// past the base held in `cell`.
pub open spec fn write_word(value: CellRef, cell: CellRef, words: int) -> InstructionView {
    InstructionView {
        body: InstructionBodyView::AssertEq { a: value, b: word_at(cell, words) },
        inc_ap: false,
        hints: Seq::empty(),
    }
}

/// The cell `offset` words from the allocation pointer.
pub open spec fn ap_cell(offset: i16) -> CellRef {
    CellRef { register: Register::AP, offset }
}

/// The arguments of a contract call, as the code speaks of them: all
/// written against the allocation pointer before the first instruction.
pub struct CallContractArgs {
    /// The cell of the gas counter.
    pub gas_builtin: CellRef,
    /// The cursor into the system-call channel.
    pub system: ResOperandView,
    /// The cell of the address of the contract that is called.
    pub contract_address: CellRef,
    /// The cell that holds the address of the first word of the call data.
    pub call_data_start: CellRef,
    /// The cell that holds the address after the last word of the call data.
    pub call_data_end: CellRef,
}

impl CallContractArgs {
    /// Whether code can be written for the arguments: nine words of the
    /// channel can be addressed, and every cell can still be named after
    /// the allocation pointer has advanced as far as it will when the cell
    /// is last used.
    pub open spec fn wf(self) -> bool {
        &&& is_cursor(self.system, 8)
        &&& cursor_cell(self.system).can_apply_ap_change(2)
        &&& self.gas_builtin.can_apply_ap_change(1)
        &&& self.contract_address.can_apply_ap_change(1)
        &&& self.call_data_start.can_apply_ap_change(1)
        &&& self.call_data_end.can_apply_ap_change(1)
    }

    /// The code of the call. A temporary takes the selector. The request
    /// is written through the channel: selector, gas counter, address,
    /// start and end of the call data. A second temporary takes the revert
    /// reason from the seventh word of the channel; the instruction that
    /// reads it carries the hint that performs the call, so the host has
    /// answered when it runs. The last instruction jumps if the revert
    /// reason is not zero. Both temporaries are claimed by the instruction
    /// that first writes them.
    pub open spec fn instructions(self) -> Seq<InstructionView> {
        let base = cursor_cell(self.system).applied_ap_change(1);
        let at = cursor_offset(self.system);
        seq![
            InstructionView {
                body: InstructionBodyView::AssertEq {
                    a: ap_cell(0),
                    b: ResOperandView::Immediate(call_contract_selector_value()),
                },
                inc_ap: true,
                hints: Seq::empty(),
            },
            write_word(ap_cell(-1i16), base, at),
            write_word(self.gas_builtin.applied_ap_change(1), base, at + 1),
            write_word(self.contract_address.applied_ap_change(1), base, at + 2),
            write_word(self.call_data_start.applied_ap_change(1), base, at + 3),
            write_word(self.call_data_end.applied_ap_change(1), base, at + 4),
            InstructionView {
                body: InstructionBodyView::AssertEq { a: ap_cell(0), b: word_at(base, at + 6) },
                inc_ap: true,
                hints: seq![HintView::SystemCall { system: self.system.applied_ap_change(1) }],
            },
            InstructionView {
                body: InstructionBodyView::Jnz {
                    jump_offset: DerefOrImmediateView::Immediate(0),
                    condition: ap_cell(-1i16),
                },
                inc_ap: false,
                hints: Seq::empty(),
            },
        ]
    }

    /// The state in which the code ends, on either branch: the variables
    /// in the order in which they were bound, two temporaries handed out,
    /// and both claimed.
    pub open spec fn end_state(self) -> StateView {
        let base = cursor_cell(self.system);
        let at = cursor_offset(self.system);
        StateView {
            vars: seq![
                cursor_at(base, at + 9),
                ResOperandView::Immediate(call_contract_selector_value()),
                ResOperandView::Deref(self.gas_builtin),
                ResOperandView::Deref(self.contract_address),
                ResOperandView::Deref(self.call_data_start),
                ResOperandView::Deref(self.call_data_end),
                ResOperandView::Deref(ap_cell(0)),
                self.system,
                word_at(base, at),
                word_at(base, at + 1),
                word_at(base, at + 2),
                word_at(base, at + 3),
                word_at(base, at + 4),
                word_at(base, at + 5),
                ResOperandView::Deref(ap_cell(1)),
                word_at(base, at + 6),
                word_at(base, at + 7),
                word_at(base, at + 8),
            ],
            allocated: 2,
            ap_change: 2,
        }
    }
}

/// The variables of a contract call's session that its results are read from.
pub struct CallContractVars {
    pub system: Var,
    pub updated_gas_builtin: Var,
    pub revert_reason: Var,
    pub res_start: Var,
    pub res_end: Var,
}

/// Writes the code of a contract call in a new session and finishes it.
#[verifier::rlimit(40)]
pub fn call_contract_code(
    system: ResOperand,
    gas_builtin: CellRef,
    contract_address: CellRef,
    call_data_start: CellRef,
    call_data_end: CellRef,
) -> (r: (CasmBuildResult, CallContractVars))
    requires
        (CallContractArgs {
            gas_builtin,
            system: system@,
            contract_address,
            call_data_start,
            call_data_end,
        }).wf(),
    ensures
        ({
            let args = CallContractArgs {
                gas_builtin,
                system: system@,
                contract_address,
                call_data_start,
                call_data_end,
            };
            &&& instructions_view(r.0.instructions@) == args.instructions()
            &&& crate::builder::positions_view(r.0.awaiting_relocations@) == seq![7int]
            &&& r.0.jump_targets@ == seq![failure_label()]
            &&& r.0.fallthrough_state@ == args.end_state()
            &&& r.0.fallthrough_state@.ap_change == 2
            &&& r.0.label_state@[failure_label()].ap_change == 2
            &&& r.0.label_state@ == Map::<Seq<char>, StateView>::empty().insert(
                failure_label(),
                args.end_state(),
            )
            &&& r.1 == (CallContractVars {
                system: Var(0),
                updated_gas_builtin: Var(13),
                revert_reason: Var(14),
                res_start: Var(16),
                res_end: Var(17),
            })
        }),
{
    let ghost args = CallContractArgs {
        gas_builtin,
        system: system@,
        contract_address,
        call_data_start,
        call_data_end,
    };
    let mut casm_builder = CasmBuilder::default();
    let system = casm_builder.add_var(system);
    let selector_imm = casm_builder.add_var(ResOperand::Immediate(call_contract_selector()));
    let gas_builtin = casm_builder.add_var(ResOperand::Deref(gas_builtin));
    let contract_address = casm_builder.add_var(ResOperand::Deref(contract_address));
    let call_data_start = casm_builder.add_var(ResOperand::Deref(call_data_start));
    let call_data_end = casm_builder.add_var(ResOperand::Deref(call_data_end));
    let selector = casm_builder.alloc_var();
    casm_builder.assert_vars_eq(selector, selector_imm);
    let original_system = casm_builder.duplicate_var(system);
    casm_builder.buffer_write_and_inc(system, selector);
    casm_builder.buffer_write_and_inc(system, gas_builtin);
    casm_builder.buffer_write_and_inc(system, contract_address);
    casm_builder.buffer_write_and_inc(system, call_data_start);
    casm_builder.buffer_write_and_inc(system, call_data_end);
    let hint_system = casm_builder.get_value(original_system, true);
    casm_builder.add_hint(Hint::SystemCall { system: hint_system });
    let updated_gas_builtin = casm_builder.get_ref_and_inc(system);
    let revert_reason = casm_builder.alloc_var();
    casm_builder.buffer_write_and_inc(system, revert_reason);
    let res_start = casm_builder.get_ref_and_inc(system);
    let res_end = casm_builder.get_ref_and_inc(system);
    casm_builder.jump_nz(revert_reason, "Failure".to_owned());
    let result = casm_builder.build();
    proof {
        assert(result.fallthrough_state@.vars =~= args.end_state().vars);
        assert(instructions_view(result.instructions@) =~= args.instructions());
    }
    (result, CallContractVars { system, updated_gas_builtin, revert_reason, res_start, res_end })
}

/// The place of the word `words` words past the base held in `cell`.
pub open spec fn place_at(cell: CellRef, words: int) -> CellExpressionView {
    CellExpressionView::DoubleDeref(cell, words as i16)
}

impl CallContractArgs {
    /// Where the results of the call live once the code has run: the gas
    /// counter in the sixth word of the channel, the channel itself nine
    /// words on, and the result array's start and end in the eighth and
    /// ninth word. All are written against the allocation pointer after
    /// the code, which has advanced by two words.
    pub open spec fn success_results(self) -> Seq<Seq<CellExpressionView>> {
        let base = cursor_cell(self.system).applied_ap_change(2);
        let at = cursor_offset(self.system);
        seq![
            seq![place_at(base, at + 5)],
            seq![
                CellExpressionView::BinOp(
                    BinOpExpressionView {
                        op: FeltOperator::Add,
                        a: base,
                        b: DerefOrImmediateView::Immediate(at + 9),
                    },
                ),
            ],
            seq![place_at(base, at + 7), place_at(base, at + 8)],
        ]
    }

    /// Where the results live on the failure branch: as on success, and
    /// before the result array the revert reason, in the temporary that
    /// was handed out last.
    pub open spec fn failure_results(self) -> Seq<Seq<CellExpressionView>> {
        let success = self.success_results();
        seq![
            success[0],
            success[1],
            seq![CellExpressionView::Deref(ap_cell(-1i16))],
            success[2],
        ]
    }
}

/// Whether the places of four arguments have the forms that a contract
/// call takes: the gas counter and the address each in a cell, the channel
/// a buffer with room for the nine words of the exchange, and the call
/// data an array whose end has not moved on past what its cell holds.
pub open spec fn call_contract_accepts(refs: Seq<Seq<CellExpressionView>>) -> bool {
    &&& refs[0].len() == 1 && refs[0][0] is Deref
    &&& refs[1].len() == 1 && refs[1][0].is_buffer(8)
    &&& refs[2].len() == 1 && refs[2][0] is Deref
    &&& ArrayView::is_array(refs[3]) && ArrayView::of(refs[3]).end_offset == 0
}

/// The arguments that such places stand for.
pub open spec fn call_contract_args(refs: Seq<Seq<CellExpressionView>>) -> CallContractArgs {
    CallContractArgs {
        gas_builtin: refs[0][0]->Deref_0,
        system: refs[1][0].buffer(),
        contract_address: refs[2][0]->Deref_0,
        call_data_start: ArrayView::of(refs[3]).start,
        call_data_end: ArrayView::of(refs[3]).end,
    }
}

/// By how many words the two branches of a contract call advance the
/// allocation pointer, as its code does: by the two temporaries.
pub open spec fn call_contract_ap_changes() -> Seq<ApChange> {
    seq![ApChange::Known(2), ApChange::Known(2)]
}

/// Whatever the arguments, the states in which the code of a contract call
/// ends, where it falls through and where it jumps, show the change of the
/// allocation pointer that the analysis is held to.
pub proof fn lemma_call_contract_ap_changes(args: CallContractArgs)
    ensures
        seq![
            ApChange::Known(args.end_state().ap_change as usize),
            ApChange::Known(args.end_state().ap_change as usize),
        ] == call_contract_ap_changes(),
{
}

/// What compiling a contract call comes to. With other than four
/// arguments, or with one in a place of the wrong form, there is no code.
/// Else the code is that of the call; its one jump, the last instruction,
/// awaits the statement at which the failure branch continues.
pub open spec fn call_contract_compiled(
    refs: Seq<Seq<CellExpressionView>>,
    failure_target: StatementIdx,
) -> Result<CompiledInvocationView, InvocationError> {
    if refs.len() != 4 {
        Err(InvocationError::WrongNumberOfArguments { expected: 4, actual: refs.len() as usize })
    } else if !call_contract_accepts(refs) {
        Err(InvocationError::InvalidReferenceExpressionForArgument)
    } else {
        let args = call_contract_args(refs);
        Ok(
            CompiledInvocationView {
                instructions: args.instructions(),
                relocations: seq![
                    RelocationEntry {
                        instruction_idx: 7,
                        relocation: Relocation::RelativeStatementId(failure_target),
                    },
                ],
                results: seq![
                    BranchChangesView {
                        refs: args.success_results(),
                        ap_change: ApChange::Known(2),
                    },
                    BranchChangesView {
                        refs: args.failure_results(),
                        ap_change: ApChange::Known(2),
                    },
                ],
            },
        )
    }
}

/// Whether a contract call can be compiled in the given surroundings. The
/// invocation must have a branch that falls through and one that jumps,
/// and the function a fourth parameter, the call data. Where the arguments are
/// accepted, their cells must be nameable after the allocation pointer has
/// advanced, and the analysis of allocation-pointer changes must say of
/// the two branches what the code does.
pub open spec fn can_build_call_contract(
    builder: &CompiledInvocationBuilder<'_>,
    libfunc: &SignatureOnlyConcreteLibFunc,
) -> bool {
    let refs = references_view(builder.refs@);
    &&& builder.has_one_jump_target()
    &&& libfunc.signature.param_signatures@.len() > 3
    &&& refs.len() == 4 && call_contract_accepts(refs) ==> call_contract_args(refs).wf()
        && builder.ap_changes@ == call_contract_ap_changes()
}

/// The arguments of a contract call, read from the places where they live.
pub struct CallContractOperands {
    pub gas_builtin: CellRef,
    pub system: ResOperand,
    pub contract_address: CellRef,
    pub call_data_start: CellRef,
    pub call_data_end: CellRef,
}

impl View for CallContractOperands {
    type V = CallContractArgs;

    open spec fn view(&self) -> CallContractArgs {
        CallContractArgs {
            gas_builtin: self.gas_builtin,
            system: self.system@,
            contract_address: self.contract_address,
            call_data_start: self.call_data_start,
            call_data_end: self.call_data_end,
        }
    }
}

/// Reads the arguments of a contract call from the places where they
/// live: there must be four, each in a place of the form that its
/// parameter takes.
pub fn call_contract_operands(
    refs: &[ReferenceExpression],
    program_info: &ProgramInfo,
    concrete_array_type: &ConcreteType,
) -> (r: Result<CallContractOperands, InvocationError>)
    ensures
        match r {
            Ok(operands) => {
                &&& refs@.len() == 4
                &&& call_contract_accepts(references_view(refs@))
                &&& operands@ == call_contract_args(references_view(refs@))
            },
            Err(e) => if refs@.len() != 4 {
                e == (InvocationError::WrongNumberOfArguments { expected: 4, actual: refs.len() })
            } else {
                !call_contract_accepts(references_view(refs@)) && e
                    == InvocationError::InvalidReferenceExpressionForArgument
            },
        },
{
    if refs.len() != 4 {
        return Err(InvocationError::WrongNumberOfArguments { expected: 4, actual: refs.len() });
    }
    let ghost places = references_view(refs@);
    assert(places[0] == refs@[0]@);
    assert(places[1] == refs@[1]@);
    assert(places[2] == refs@[2]@);
    assert(places[3] == refs@[3]@);
    let gas_builtin = match refs[0].try_unpack_single() {
        Ok(cell_expr) => match cell_expr.to_deref() {
            Ok(cell) => cell,
            Err(e) => {
                return Err(e);
            },
        },
        Err(_) => {
            return Err(InvocationError::InvalidReferenceExpressionForArgument);
        },
    };
    let system = match refs[1].try_unpack_single() {
        Ok(cell_expr) => match cell_expr.to_buffer(8) {
            Ok(cursor) => cursor,
            Err(e) => {
                return Err(e);
            },
        },
        Err(_) => {
            return Err(InvocationError::InvalidReferenceExpressionForArgument);
        },
    };
    let contract_address = match refs[2].try_unpack_single() {
        Ok(cell_expr) => match cell_expr.to_deref() {
            Ok(cell) => cell,
            Err(e) => {
                return Err(e);
            },
        },
        Err(_) => {
            return Err(InvocationError::InvalidReferenceExpressionForArgument);
        },
    };
    let call_data = match ArrayView::try_get_view(&refs[3], program_info, concrete_array_type) {
        Ok(view) => view,
        Err(_) => {
            return Err(InvocationError::InvalidReferenceExpressionForArgument);
        },
    };
    if call_data.end_offset != 0 {
        return Err(InvocationError::InvalidReferenceExpressionForArgument);
    }
    Ok(
        CallContractOperands {
            gas_builtin,
            system,
            contract_address,
            call_data_start: call_data.start,
            call_data_end: call_data.end,
        },
    )
}

/// The cell that holds the base address of the buffer that `cursor`
/// points into: the cell itself, or the cell of a sum. No other operand
/// has one.
pub fn cursor_base(cursor: &ResOperand) -> (r: Option<CellRef>)
    ensures
        r == match cursor@ {
            ResOperandView::Deref(cell) => Some(cell),
            ResOperandView::BinOp(op) => Some(op.a),
            _ => None,
        },
{
    match cursor {
        ResOperand::Deref(cell) => Some(*cell),
        ResOperand::BinOp(op) => Some(op.a),
        _ => None,
    }
}

/// Whether `build_call_contract` can be asked, see `can_build_call_contract`.
pub fn check_build_call_contract(
    builder: &CompiledInvocationBuilder<'_>,
    libfunc: &SignatureOnlyConcreteLibFunc,
) -> (r: bool)
    ensures
        r == can_build_call_contract(builder, libfunc),
{
    if !builder.has_non_fallthrough_statement_id() || libfunc.signature.param_signatures.len()
        <= 3 {
        return false;
    }
    match call_contract_operands(
        builder.refs,
        builder.program_info,
        &libfunc.signature.param_signatures[3].ty,
    ) {
        Err(_) => true,
        Ok(operands) => {
            let nameable = match cursor_base(&operands.system) {
                Some(base) => base.apply_known_ap_change(2).is_some(),
                None => false,
            } && operands.gas_builtin.apply_known_ap_change(1).is_some()
                && operands.contract_address.apply_known_ap_change(1).is_some()
                && operands.call_data_start.apply_known_ap_change(1).is_some()
                && operands.call_data_end.apply_known_ap_change(1).is_some();
            let agreed = builder.ap_changes.len() == 2 && builder.ap_changes[0]
                == ApChange::Known(2) && builder.ap_changes[1] == ApChange::Known(2);
            proof {
                assert(nameable == operands@.wf());
                if agreed {
                    assert(builder.ap_changes@ =~= call_contract_ap_changes());
                }
            }
            nameable && agreed
        },
    }
}

/// Builds instructions for the contract-call system call.
#[verifier::rlimit(40)]
pub fn build_call_contract(
    builder: CompiledInvocationBuilder<'_>,
    libfunc: &SignatureOnlyConcreteLibFunc,
) -> (r: Result<CompiledInvocation, InvocationError>)
    requires
        can_build_call_contract(&builder, libfunc),
    ensures
        compiled_view(r) == call_contract_compiled(
            references_view(builder.refs@),
            builder.jump_target(),
        ),
        r is Ok ==> builder.ap_changes@ == call_contract_ap_changes(),
{
    let failure_handle_statement_id = get_non_fallthrough_statement_id(&builder);
    let concrete_array_type = &libfunc.signature.param_signatures[3].ty;
    let ghost refs = references_view(builder.refs@);
    let operands = match call_contract_operands(
        builder.refs,
        builder.program_info,
        concrete_array_type,
    ) {
        Ok(operands) => operands,
        Err(e) => {
            return Err(e);
        },
    };
    let CallContractOperands {
        gas_builtin,
        system,
        contract_address,
        call_data_start,
        call_data_end,
    } = operands;
    let ghost args = call_contract_args(refs);
    assert(system@ == args.system);
    let (code, vars) = call_contract_code(
        system,
        gas_builtin,
        contract_address,
        call_data_start,
        call_data_end,
    );
    let instructions = code.instructions;
    let awaiting_relocations = code.awaiting_relocations;
    let label_state = code.label_state;
    let fallthrough_state = code.fallthrough_state;
    assert(awaiting_relocations@.len() == 1 && awaiting_relocations@[0] == 7) by {
        let positions = crate::builder::positions_view(awaiting_relocations@);
        assert(positions.len() == awaiting_relocations@.len());
        assert(positions =~= seq![7int]);
        assert(positions[0] == awaiting_relocations@[0] as int);
    }
    let relocation_index = awaiting_relocations[0];
    let failure_state = label_state.index(&"Failure".to_owned());
    let success = vec![
        ReferenceExpression::from_cell(
            CellExpression::from_res_operand(fallthrough_state.get_adjusted(vars.updated_gas_builtin)),
        ),
        ReferenceExpression::from_cell(
            CellExpression::from_res_operand(fallthrough_state.get_adjusted(vars.system)),
        ),
        ReferenceExpression {
            cells: vec![
                CellExpression::from_res_operand(fallthrough_state.get_adjusted(vars.res_start)),
                CellExpression::from_res_operand(fallthrough_state.get_adjusted(vars.res_end)),
            ],
        },
    ];
    let failure = vec![
        ReferenceExpression::from_cell(
            CellExpression::from_res_operand(failure_state.get_adjusted(vars.updated_gas_builtin)),
        ),
        ReferenceExpression::from_cell(
            CellExpression::from_res_operand(failure_state.get_adjusted(vars.system)),
        ),
        ReferenceExpression::from_cell(
            CellExpression::Deref(failure_state.get_adjusted_as_cell_ref(vars.revert_reason)),
        ),
        ReferenceExpression {
            cells: vec![
                CellExpression::from_res_operand(failure_state.get_adjusted(vars.res_start)),
                CellExpression::from_res_operand(failure_state.get_adjusted(vars.res_end)),
            ],
        },
    ];
    proof {
        assert(success@[2]@ =~= args.success_results()[2]);
        assert(failure@[3]@ =~= args.success_results()[2]);
        assert(references_view(success@) =~= args.success_results());
        assert(references_view(failure@) =~= args.failure_results());
    }
    let relocations = vec![
        RelocationEntry {
            instruction_idx: relocation_index,
            relocation: Relocation::RelativeStatementId(failure_handle_statement_id),
        },
    ];
    let outputs = vec![success, failure];
    proof {
        assert(crate::invocations::outputs_view(outputs@) =~= seq![
            args.success_results(),
            args.failure_results(),
        ]);
    }
    let compiled = builder.build(instructions, relocations, outputs);
    proof {
        let expected = call_contract_compiled(refs, builder.jump_target());
        assert(compiled@.results =~= expected->Ok_0.results);
        assert(compiled@.relocations =~= expected->Ok_0.relocations);
    }
    Ok(compiled)
}

/// Handles the storage_address_const libfunc: no code, and the one result
/// is the constant itself. The constant must lie in `[0, 2^251)`.
pub fn build_contract_address_const(
    builder: CompiledInvocationBuilder<'_>,
    libfunc: &SignatureAndConstConcreteLibFunc,
) -> (r: Result<CompiledInvocation, InvocationError>)
    requires
        0 <= bigint_value(libfunc.c) < storage_address_bound() ==> builder.ap_changes@.len() == 1,
    ensures
        compiled_view(r) == if 0 <= bigint_value(libfunc.c) < storage_address_bound() {
            Ok::<CompiledInvocationView, InvocationError>(
                CompiledInvocationView {
                    instructions: Seq::empty(),
                    relocations: Seq::empty(),
                    results: seq![
                        BranchChangesView {
                            refs: seq![
                                seq![CellExpressionView::Immediate(bigint_value(libfunc.c))],
                            ],
                            ap_change: builder.ap_changes@[0],
                        },
                    ],
                },
            )
        } else {
            Err::<CompiledInvocationView, InvocationError>(InvocationError::InvalidGenericArg)
        },
{
    if !is_storage_address_const(&libfunc.c) {
        return Err(InvocationError::InvalidGenericArg);
    }
    let outputs = vec![
        ReferenceExpression::from_cell(CellExpression::Immediate(bigint_clone(&libfunc.c))),
    ];
    assert(references_view(outputs@) =~= seq![
        seq![CellExpressionView::Immediate(bigint_value(libfunc.c))],
    ]);
    Ok(builder.build_only_reference_changes(outputs))
}

} // verus!
