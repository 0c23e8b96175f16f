use num_bigint::BigInt;
use sierra_to_casm::array::ProgramInfo;
use sierra_to_casm::ids::GenericTypeId;
use sierra_to_casm::ids::StatementIdx;
use sierra_to_casm::instructions::Hint;
use sierra_to_casm::instructions::Instruction;
use sierra_to_casm::instructions::InstructionBody;
use sierra_to_casm::interoperability::build_call_contract;
use sierra_to_casm::interoperability::build_contract_address_const;
use sierra_to_casm::interoperability::call_contract_code;
use sierra_to_casm::interoperability::call_contract_operands;
use sierra_to_casm::interoperability::call_contract_selector;
use sierra_to_casm::interoperability::check_build_call_contract;
use sierra_to_casm::invocations::get_non_fallthrough_statement_id;
use sierra_to_casm::invocations::ApChange;
use sierra_to_casm::invocations::BranchChanges;
use sierra_to_casm::invocations::BranchTarget;
use sierra_to_casm::invocations::CompiledInvocation;
use sierra_to_casm::invocations::CompiledInvocationBuilder;
use sierra_to_casm::invocations::InvocationError;
use sierra_to_casm::lib_func::ConcreteType;
use sierra_to_casm::lib_func::ConcreteTypeLongId;
use sierra_to_casm::lib_func::LibFuncSignature;
use sierra_to_casm::lib_func::ParamSignature;
use sierra_to_casm::lib_func::SignatureAndConstConcreteLibFunc;
use sierra_to_casm::lib_func::SignatureOnlyConcreteLibFunc;
use sierra_to_casm::operand::BinOpOperand;
use sierra_to_casm::operand::CellRef;
use sierra_to_casm::operand::DerefOrImmediate;
use sierra_to_casm::operand::Operation;
use sierra_to_casm::operand::Register;
use sierra_to_casm::operand::ResOperand;
use sierra_to_casm::references::BinOpExpression;
use sierra_to_casm::references::CellExpression;
use sierra_to_casm::references::FeltOperator;
use sierra_to_casm::references::ReferenceExpression;
use sierra_to_casm::registry::TypeRegistry;
use sierra_to_casm::relocations::Relocation;
use sierra_to_casm::relocations::RelocationEntry;
use sierra_to_casm::storage::StorageAddressConstLibFuncWrapped;
use sierra_to_casm::storage::StorageAddressType;

fn ap(offset: i16) -> CellRef {
    CellRef { register: Register::AP, offset }
}

fn fp(offset: i16) -> CellRef {
    CellRef { register: Register::FP, offset }
}

fn cell(c: CellRef) -> ReferenceExpression {
    ReferenceExpression::from_cell(CellExpression::Deref(c))
}

fn plus(c: CellRef, words: i64) -> CellExpression {
    CellExpression::BinOp(BinOpExpression {
        op: FeltOperator::Add,
        a: c,
        b: DerefOrImmediate::Immediate(BigInt::from(words)),
    })
}

fn cursor(c: CellRef, words: i64) -> ResOperand {
    ResOperand::BinOp(BinOpOperand {
        op: Operation::Add,
        a: c,
        b: DerefOrImmediate::Immediate(BigInt::from(words)),
    })
}

fn array(start: CellRef, end: CellRef) -> ReferenceExpression {
    ReferenceExpression { cells: vec![CellExpression::Deref(start), CellExpression::Deref(end)] }
}

fn word(c: CellRef, words: i16) -> ReferenceExpression {
    ReferenceExpression::from_cell(CellExpression::DoubleDeref(c, words))
}

fn ty(name: &str) -> ConcreteType {
    ConcreteType {
        long_id: ConcreteTypeLongId { generic_id: GenericTypeId::new(name), generic_args: vec![] },
        storable: true,
        droppable: true,
        duplicatable: true,
        size: 1,
    }
}

fn call_contract_libfunc() -> SignatureOnlyConcreteLibFunc {
    SignatureOnlyConcreteLibFunc {
        signature: LibFuncSignature {
            param_signatures: vec![
                ParamSignature::new(ty("GasBuiltin")),
                ParamSignature {
                    ty: ty("System"),
                    allow_deferred: false,
                    allow_add_const: true,
                    allow_const: false,
                },
                ParamSignature::new(ty("ContractAddress")),
                ParamSignature::new(ty("Array")),
            ],
            branch_signatures: vec![],
            fallthrough: Some(0),
        },
    }
}

fn selector() -> BigInt {
    "9221223673929037989702739452259".parse::<BigInt>().unwrap()
}

fn write(value: CellRef, base: CellRef, words: i16) -> Instruction {
    Instruction {
        body: InstructionBody::AssertEq { a: value, b: ResOperand::DoubleDeref(base, words) },
        inc_ap: false,
        hints: vec![],
    }
}

const BRANCHES: [BranchTarget; 2] =
    [BranchTarget::Fallthrough, BranchTarget::Statement(StatementIdx(42))];
const TWO_AND_TWO: [ApChange; 2] = [ApChange::Known(2), ApChange::Known(2)];

fn compile_call(refs: &[ReferenceExpression]) -> Result<CompiledInvocation, InvocationError> {
    let info = ProgramInfo { type_sizes: vec![] };
    let libfunc = call_contract_libfunc();
    let builder = CompiledInvocationBuilder {
        program_info: &info,
        branches: &BRANCHES,
        ap_changes: &TWO_AND_TWO,
        refs,
    };
    assert!(check_build_call_contract(&builder, &libfunc));
    build_call_contract(builder, &libfunc)
}

fn good_refs() -> Vec<ReferenceExpression> {
    vec![
        cell(ap(-5)),
        ReferenceExpression::from_cell(plus(fp(-3), 4)),
        cell(ap(-4)),
        array(ap(-3), ap(-2)),
    ]
}

#[test]
fn selector_is_the_name_read_as_a_number() {
    assert_eq!(call_contract_selector(), selector());
    assert_eq!(
        call_contract_selector(),
        BigInt::from_bytes_le(num_bigint::Sign::Plus, "call_contract".as_bytes())
    );
}

#[test]
fn call_contract_code_for_a_channel_held_by_the_frame() {
    let compiled = compile_call(&good_refs()).unwrap();
    let expected_instructions = vec![
        Instruction {
            body: InstructionBody::AssertEq { a: ap(0), b: ResOperand::Immediate(selector()) },
            inc_ap: true,
            hints: vec![],
        },
        write(ap(-1), fp(-3), 4),
        write(ap(-6), fp(-3), 5),
        write(ap(-5), fp(-3), 6),
        write(ap(-4), fp(-3), 7),
        write(ap(-3), fp(-3), 8),
        Instruction {
            body: InstructionBody::AssertEq { a: ap(0), b: ResOperand::DoubleDeref(fp(-3), 10) },
            inc_ap: true,
            hints: vec![Hint::SystemCall { system: cursor(fp(-3), 4) }],
        },
        Instruction {
            body: InstructionBody::Jnz {
                jump_offset: DerefOrImmediate::Immediate(BigInt::from(0)),
                condition: ap(-1),
            },
            inc_ap: false,
            hints: vec![],
        },
    ];
    assert_eq!(compiled.instructions, expected_instructions);
    assert_eq!(
        compiled.relocations,
        vec![RelocationEntry {
            instruction_idx: 7,
            relocation: Relocation::RelativeStatementId(StatementIdx(42)),
        }]
    );
    let result_array = ReferenceExpression {
        cells: vec![
            CellExpression::DoubleDeref(fp(-3), 11),
            CellExpression::DoubleDeref(fp(-3), 12),
        ],
    };
    assert_eq!(
        compiled.results,
        vec![
            BranchChanges {
                refs: vec![
                    word(fp(-3), 9),
                    ReferenceExpression::from_cell(plus(fp(-3), 13)),
                    result_array.clone(),
                ],
                ap_change: ApChange::Known(2),
            },
            BranchChanges {
                refs: vec![
                    word(fp(-3), 9),
                    ReferenceExpression::from_cell(plus(fp(-3), 13)),
                    cell(ap(-1)),
                    result_array,
                ],
                ap_change: ApChange::Known(2),
            },
        ]
    );
}

#[test]
fn call_contract_code_for_a_channel_held_near_the_allocation_pointer() {
    let refs = vec![cell(fp(-5)), cell(ap(-7)), cell(fp(-4)), array(fp(-3), ap(-1))];
    let compiled = compile_call(&refs).unwrap();
    assert_eq!(compiled.instructions.len(), 8);
    assert_eq!(compiled.instructions[1], write(ap(-1), ap(-8), 0));
    assert_eq!(compiled.instructions[2], write(fp(-5), ap(-8), 1));
    assert_eq!(compiled.instructions[3], write(fp(-4), ap(-8), 2));
    assert_eq!(compiled.instructions[4], write(fp(-3), ap(-8), 3));
    assert_eq!(compiled.instructions[5], write(ap(-2), ap(-8), 4));
    assert_eq!(
        compiled.instructions[6],
        Instruction {
            body: InstructionBody::AssertEq { a: ap(0), b: ResOperand::DoubleDeref(ap(-8), 6) },
            inc_ap: true,
            hints: vec![Hint::SystemCall { system: ResOperand::Deref(ap(-8)) }],
        }
    );
    assert_eq!(
        compiled.results[0].refs,
        vec![
            word(ap(-9), 5),
            ReferenceExpression::from_cell(plus(ap(-9), 9)),
            ReferenceExpression {
                cells: vec![
                    CellExpression::DoubleDeref(ap(-9), 7),
                    CellExpression::DoubleDeref(ap(-9), 8),
                ],
            },
        ]
    );
    assert_eq!(compiled.results[1].refs.len(), 4);
    assert_eq!(compiled.results[1].refs[2], cell(ap(-1)));
}

#[test]
fn call_contract_has_one_relocation_for_its_one_jump() {
    let compiled = compile_call(&good_refs()).unwrap();
    let jumps: Vec<usize> = (0..compiled.instructions.len())
        .filter(|at| matches!(compiled.instructions[*at].body, InstructionBody::Jnz { .. }))
        .collect();
    assert_eq!(jumps, vec![7]);
    assert_eq!(compiled.relocations.len(), jumps.len());
    assert_eq!(compiled.relocations[0].instruction_idx, jumps[0]);
}

#[test]
fn call_contract_session_advances_the_pointer_by_two_on_both_paths() {
    let (code, vars) = call_contract_code(cursor(fp(-3), 4), ap(-5), ap(-4), ap(-3), ap(-2));
    assert_eq!(code.fallthrough_state.ap_change(), 2);
    let failure = code.label_state.index(&"Failure".to_string());
    assert_eq!(failure.ap_change(), 2);
    assert_eq!(
        [code.fallthrough_state.ap_change(), failure.ap_change()].map(ApChange::Known),
        TWO_AND_TWO
    );
    assert_eq!(code.awaiting_relocations, vec![7]);
    assert_eq!(code.fallthrough_state.var_count(), 18);
    assert_eq!(failure, &code.fallthrough_state);
    assert_eq!(code.fallthrough_state.get_adjusted(vars.revert_reason), ResOperand::Deref(ap(-1)));
    assert_eq!(code.fallthrough_state.get_adjusted(vars.system), cursor(fp(-3), 13));
}

#[test]
fn call_contract_with_pending_call_data_offset_fails() {
    let mut refs = good_refs();
    refs[3] = ReferenceExpression { cells: vec![CellExpression::Deref(ap(-3)), plus(ap(-2), 1)] };
    assert_eq!(compile_call(&refs), Err(InvocationError::InvalidReferenceExpressionForArgument));
    refs[3] = ReferenceExpression { cells: vec![CellExpression::Deref(ap(-3)), plus(ap(-2), 0)] };
    assert!(compile_call(&refs).is_ok());
}

#[test]
fn call_contract_with_three_or_five_arguments_fails() {
    let mut refs = good_refs();
    refs.pop();
    assert_eq!(
        compile_call(&refs),
        Err(InvocationError::WrongNumberOfArguments { expected: 4, actual: 3 })
    );
    let mut refs = good_refs();
    refs.push(cell(ap(-1)));
    assert_eq!(
        compile_call(&refs),
        Err(InvocationError::WrongNumberOfArguments { expected: 4, actual: 5 })
    );
    assert_eq!(
        compile_call(&[]),
        Err(InvocationError::WrongNumberOfArguments { expected: 4, actual: 0 })
    );
}

#[test]
fn call_contract_with_an_argument_of_the_wrong_form_fails() {
    let refused = Err(InvocationError::InvalidReferenceExpressionForArgument);
    let mut refs = good_refs();
    refs[0] = ReferenceExpression::from_cell(CellExpression::Immediate(BigInt::from(1)));
    assert_eq!(compile_call(&refs), refused);
    let mut refs = good_refs();
    refs[0] = array(ap(-9), ap(-8));
    assert_eq!(compile_call(&refs), refused);
    let mut refs = good_refs();
    refs[1] = ReferenceExpression::from_cell(plus(fp(-3), 32760));
    assert_eq!(compile_call(&refs), refused);
    let mut refs = good_refs();
    refs[1] = ReferenceExpression::from_cell(plus(fp(-3), 32759));
    assert!(compile_call(&refs).is_ok());
    let mut refs = good_refs();
    refs[2] = ReferenceExpression::from_cell(plus(fp(-3), 1));
    assert_eq!(compile_call(&refs), refused);
    let mut refs = good_refs();
    refs[3] = cell(ap(-3));
    assert_eq!(compile_call(&refs), refused);
    let mut refs = good_refs();
    refs[3] = ReferenceExpression {
        cells: vec![CellExpression::Immediate(BigInt::from(0)), CellExpression::Deref(ap(-2))],
    };
    assert_eq!(compile_call(&refs), refused);
}

#[test]
fn call_contract_operands_are_read_from_the_references() {
    let info = ProgramInfo { type_sizes: vec![] };
    let operands = call_contract_operands(&good_refs(), &info, &ty("Array")).ok().unwrap();
    assert_eq!(operands.gas_builtin, ap(-5));
    assert_eq!(operands.system, cursor(fp(-3), 4));
    assert_eq!(operands.contract_address, ap(-4));
    assert_eq!(operands.call_data_start, ap(-3));
    assert_eq!(operands.call_data_end, ap(-2));
}

#[test]
fn call_contract_check_tells_when_the_surroundings_do_not_fit() {
    let info = ProgramInfo { type_sizes: vec![] };
    let libfunc = call_contract_libfunc();
    let refs = good_refs();
    let fits = CompiledInvocationBuilder {
        program_info: &info,
        branches: &BRANCHES,
        ap_changes: &TWO_AND_TWO,
        refs: &refs,
    };
    assert!(check_build_call_contract(&fits, &libfunc));
    let other_changes = [ApChange::Known(2), ApChange::Known(3)];
    let disagrees = CompiledInvocationBuilder {
        program_info: &info,
        branches: &BRANCHES,
        ap_changes: &other_changes,
        refs: &refs,
    };
    assert!(!check_build_call_contract(&disagrees, &libfunc));
    let unknown = [ApChange::Known(2), ApChange::Unknown];
    let disagrees = CompiledInvocationBuilder {
        program_info: &info,
        branches: &BRANCHES,
        ap_changes: &unknown,
        refs: &refs,
    };
    assert!(!check_build_call_contract(&disagrees, &libfunc));
    let one_branch = [BranchTarget::Fallthrough];
    let malformed = CompiledInvocationBuilder {
        program_info: &info,
        branches: &one_branch,
        ap_changes: &TWO_AND_TWO,
        refs: &refs,
    };
    assert!(!check_build_call_contract(&malformed, &libfunc));
    let low = vec![cell(ap(-5)), cell(ap(-32767)), cell(ap(-4)), array(ap(-3), ap(-2))];
    let too_low = CompiledInvocationBuilder {
        program_info: &info,
        branches: &BRANCHES,
        ap_changes: &TWO_AND_TWO,
        refs: &low,
    };
    assert!(!check_build_call_contract(&too_low, &libfunc));
    let low = vec![cell(ap(-32767)), cell(ap(-32766)), cell(ap(-4)), array(ap(-3), ap(-2))];
    let just_fits = CompiledInvocationBuilder {
        program_info: &info,
        branches: &BRANCHES,
        ap_changes: &TWO_AND_TWO,
        refs: &low,
    };
    assert!(check_build_call_contract(&just_fits, &libfunc));
    let bad = vec![cell(ap(-5))];
    let refused_anyway = CompiledInvocationBuilder {
        program_info: &info,
        branches: &BRANCHES,
        ap_changes: &other_changes,
        refs: &bad,
    };
    assert!(check_build_call_contract(&refused_anyway, &libfunc));
    assert_eq!(
        build_call_contract(refused_anyway, &libfunc),
        Err(InvocationError::WrongNumberOfArguments { expected: 4, actual: 1 })
    );
}

#[test]
fn non_fallthrough_statement_is_the_target_of_the_second_branch() {
    let info = ProgramInfo { type_sizes: vec![] };
    let builder = CompiledInvocationBuilder {
        program_info: &info,
        branches: &BRANCHES,
        ap_changes: &TWO_AND_TWO,
        refs: &[],
    };
    assert!(builder.has_non_fallthrough_statement_id());
    assert_eq!(get_non_fallthrough_statement_id(&builder), StatementIdx(42));
    let both_jump = [
        BranchTarget::Statement(StatementIdx(1)),
        BranchTarget::Statement(StatementIdx(2)),
    ];
    let builder = CompiledInvocationBuilder {
        program_info: &info,
        branches: &both_jump,
        ap_changes: &TWO_AND_TWO,
        refs: &[],
    };
    assert!(!builder.has_non_fallthrough_statement_id());
}

#[test]
fn build_pairs_each_branch_with_its_change() {
    let info = ProgramInfo { type_sizes: vec![] };
    let changes = [ApChange::Known(0), ApChange::Unknown, ApChange::Known(5)];
    let builder = CompiledInvocationBuilder {
        program_info: &info,
        branches: &BRANCHES,
        ap_changes: &changes,
        refs: &[],
    };
    let compiled = builder.build(
        vec![write(ap(0), fp(0), 0)],
        vec![],
        vec![vec![cell(ap(1))], vec![], vec![cell(ap(2)), cell(ap(3))]],
    );
    assert_eq!(compiled.instructions, vec![write(ap(0), fp(0), 0)]);
    assert!(compiled.relocations.is_empty());
    assert_eq!(
        compiled.results,
        vec![
            BranchChanges { refs: vec![cell(ap(1))], ap_change: ApChange::Known(0) },
            BranchChanges { refs: vec![], ap_change: ApChange::Unknown },
            BranchChanges { refs: vec![cell(ap(2)), cell(ap(3))], ap_change: ApChange::Known(5) },
        ]
    );
}

fn const_libfunc(c: BigInt) -> SignatureAndConstConcreteLibFunc {
    let mut registry = TypeRegistry::new();
    registry.register(StorageAddressType::id(), true, true, true, 1);
    SignatureAndConstConcreteLibFunc {
        c,
        signature: StorageAddressConstLibFuncWrapped {}.specialize_signature(&registry).unwrap(),
    }
}

fn compile_const(c: BigInt) -> Result<CompiledInvocation, InvocationError> {
    let info = ProgramInfo { type_sizes: vec![] };
    let changes = [ApChange::Known(0)];
    let builder = CompiledInvocationBuilder {
        program_info: &info,
        branches: &[BranchTarget::Fallthrough],
        ap_changes: &changes,
        refs: &[],
    };
    build_contract_address_const(builder, &const_libfunc(c))
}

#[test]
fn contract_address_const_is_an_immediate_and_no_code() {
    let c: BigInt = (BigInt::from(1) << 251) - 1;
    let compiled = compile_const(c.clone()).unwrap();
    assert!(compiled.instructions.is_empty());
    assert!(compiled.relocations.is_empty());
    assert_eq!(
        compiled.results,
        vec![BranchChanges {
            refs: vec![ReferenceExpression::from_cell(CellExpression::Immediate(c))],
            ap_change: ApChange::Known(0),
        }]
    );
    let compiled = compile_const(BigInt::from(0)).unwrap();
    assert_eq!(
        compiled.results[0].refs,
        vec![ReferenceExpression::from_cell(CellExpression::Immediate(BigInt::from(0)))]
    );
    let compiled = compile_const(BigInt::from(1234567)).unwrap();
    assert_eq!(
        compiled.results[0].refs,
        vec![ReferenceExpression::from_cell(CellExpression::Immediate(BigInt::from(1234567)))]
    );
}

#[test]
fn contract_address_const_out_of_range_fails() {
    let bound: BigInt = BigInt::from(1) << 251;
    assert_eq!(compile_const(bound), Err(InvocationError::InvalidGenericArg));
    assert_eq!(
        compile_const((BigInt::from(1) << 251) + 1),
        Err(InvocationError::InvalidGenericArg)
    );
    assert_eq!(compile_const(BigInt::from(1) << 300), Err(InvocationError::InvalidGenericArg));
    assert_eq!(compile_const(BigInt::from(-1)), Err(InvocationError::InvalidGenericArg));
}
