use num_bigint::BigInt;
use sierra_to_casm::ids::ConcreteTypeId;
use sierra_to_casm::ids::GenericTypeId;
use sierra_to_casm::lib_func::BranchSignature;
use sierra_to_casm::lib_func::ConcreteType;
use sierra_to_casm::lib_func::ConcreteTypeLongId;
use sierra_to_casm::lib_func::DeferredOutputKind;
use sierra_to_casm::lib_func::GenericArg;
use sierra_to_casm::lib_func::LibFuncSignature;
use sierra_to_casm::lib_func::OutputVarInfo;
use sierra_to_casm::lib_func::OutputVarReferenceInfo;
use sierra_to_casm::lib_func::ParamSignature;
use sierra_to_casm::lib_func::SierraApChange;
use sierra_to_casm::lib_func::SignatureSpecializationContext;
use sierra_to_casm::lib_func::SpecializationError;
use sierra_to_casm::registry::TypeRegistry;
use sierra_to_casm::storage::felt_type_id;
use sierra_to_casm::storage::gas_builtin_type_id;
use sierra_to_casm::storage::is_storage_address_const;
use sierra_to_casm::storage::system_type_id;
use sierra_to_casm::storage::StorageAddressConstLibFuncWrapped;
use sierra_to_casm::storage::StorageAddressType;
use sierra_to_casm::storage::StorageReadLibFunc;
use sierra_to_casm::storage::StorageWriteLibFunc;

fn plain(name: &str, size: usize) -> ConcreteType {
    ConcreteType {
        long_id: ConcreteTypeLongId { generic_id: GenericTypeId::new(name), generic_args: vec![] },
        storable: true,
        droppable: true,
        duplicatable: true,
        size,
    }
}

fn system_ty() -> ConcreteType {
    ConcreteType {
        long_id: ConcreteTypeLongId {
            generic_id: GenericTypeId::new("System"),
            generic_args: vec![],
        },
        storable: true,
        droppable: false,
        duplicatable: false,
        size: 1,
    }
}

fn gas_ty() -> ConcreteType {
    ConcreteType {
        long_id: ConcreteTypeLongId {
            generic_id: GenericTypeId::new("GasBuiltin"),
            generic_args: vec![],
        },
        storable: true,
        droppable: false,
        duplicatable: false,
        size: 1,
    }
}

fn full_registry() -> TypeRegistry {
    let mut registry = TypeRegistry::new();
    registry.register(felt_type_id(), true, true, true, 1);
    registry.register(gas_builtin_type_id(), true, false, false, 1);
    registry.register(system_type_id(), true, false, false, 1);
    registry.register(StorageAddressType::id(), true, true, true, 1);
    registry
}

fn system_param() -> ParamSignature {
    ParamSignature {
        ty: system_ty(),
        allow_deferred: false,
        allow_add_const: true,
        allow_const: false,
    }
}

fn two_pow(bits: u32) -> BigInt {
    BigInt::from(1) << bits
}

#[test]
fn type_ids_have_their_names() {
    assert_eq!(felt_type_id(), GenericTypeId::new("felt"));
    assert_eq!(gas_builtin_type_id(), GenericTypeId::new("GasBuiltin"));
    assert_eq!(system_type_id(), GenericTypeId::new("System"));
    assert_eq!(StorageAddressType::id(), GenericTypeId::new("StorageAddress"));
    assert_eq!(StorageAddressConstLibFuncWrapped::generic_type_id(), StorageAddressType::id());
    assert_eq!(StorageAddressConstLibFuncWrapped::id().name, "storage_address_const");
    assert_eq!(StorageReadLibFunc::id().name, "storage_read_syscall");
    assert_eq!(StorageWriteLibFunc::id().name, "storage_write_syscall");
    assert!(felt_type_id().same(&GenericTypeId::new("felt")));
    assert!(!felt_type_id().same(&GenericTypeId::new("Felt")));
    assert_eq!(felt_type_id().clone(), felt_type_id());
}

#[test]
fn storage_address_type_is_a_plain_word() {
    let ty = StorageAddressType::default().specialize();
    assert_eq!(ty, plain("StorageAddress", 1));
    assert_eq!(ty.size, 1);
    assert!(ty.storable && ty.droppable && ty.duplicatable);
    assert!(ty.long_id.generic_args.is_empty());
}

#[test]
fn get_concrete_type_gives_the_same_answer_again() {
    let registry = full_registry();
    let first = registry.get_concrete_type(system_type_id(), &[]);
    let second = registry.get_concrete_type(system_type_id(), &[]);
    assert_eq!(first, second);
    assert_eq!(first, Ok(system_ty()));
    let first = registry.get_concrete_type(GenericTypeId::new("Missing"), &[]);
    let second = registry.get_concrete_type(GenericTypeId::new("Missing"), &[]);
    assert_eq!(first, second);
    let args = vec![GenericArg::Value(BigInt::from(3))];
    let first = registry.get_concrete_type(felt_type_id(), &args);
    let second = registry.get_concrete_type(felt_type_id(), &args);
    assert_eq!(first, second);
}

#[test]
fn registry_does_not_know_an_unregistered_name() {
    let registry = full_registry();
    assert_eq!(
        registry.get_concrete_type(GenericTypeId::new("Missing"), &[]),
        Err(SpecializationError::UnsupportedId)
    );
    assert_eq!(
        TypeRegistry::new().get_concrete_type(felt_type_id(), &[]),
        Err(SpecializationError::UnsupportedId)
    );
    let args = vec![GenericArg::Type(ConcreteTypeId { id: 1 })];
    assert_eq!(
        registry.get_concrete_type(GenericTypeId::new("Missing"), &args),
        Err(SpecializationError::UnsupportedId)
    );
}

#[test]
fn registry_refuses_arguments_for_a_type_that_takes_none() {
    let registry = full_registry();
    let args = vec![GenericArg::Type(ConcreteTypeId { id: 1 })];
    assert_eq!(
        registry.get_concrete_type(felt_type_id(), &args),
        Err(SpecializationError::WrongNumberOfGenericArgs)
    );
}

#[test]
fn registry_keeps_the_first_entry_of_a_name() {
    let mut registry = TypeRegistry::new();
    registry.register(felt_type_id(), true, true, true, 1);
    registry.register(felt_type_id(), false, false, false, 7);
    assert_eq!(registry.get_concrete_type(felt_type_id(), &[]), Ok(plain("felt", 1)));
}

#[test]
fn param_signature_new_allows_nothing_special() {
    let param = ParamSignature::new(plain("felt", 1));
    assert_eq!(
        param,
        ParamSignature {
            ty: plain("felt", 1),
            allow_deferred: false,
            allow_add_const: false,
            allow_const: false,
        }
    );
}

#[test]
fn non_branch_signature_has_one_branch_that_falls_through() {
    let signature = LibFuncSignature::new_non_branch_ex(
        vec![ParamSignature::new(plain("felt", 1))],
        vec![OutputVarInfo {
            ty: plain("felt", 1),
            ref_info: OutputVarReferenceInfo::SameAsParam { param_idx: 0 },
        }],
        SierraApChange::Known { new_vars_only: true },
    );
    assert_eq!(signature.param_signatures.len(), 1);
    assert_eq!(signature.branch_signatures.len(), 1);
    assert_eq!(signature.fallthrough, Some(0));
    assert_eq!(signature.branch_signatures[0].ap_change, SierraApChange::Known { new_vars_only: true });
    assert_eq!(signature.branch_signatures[0].vars.len(), 1);
}

#[test]
fn storage_read_signature_over_a_full_registry() {
    let signature = StorageReadLibFunc::default().specialize_signature(&full_registry());
    let expected = LibFuncSignature {
        param_signatures: vec![system_param(), ParamSignature::new(plain("StorageAddress", 1))],
        branch_signatures: vec![BranchSignature {
            vars: vec![
                OutputVarInfo {
                    ty: system_ty(),
                    ref_info: OutputVarReferenceInfo::Deferred(DeferredOutputKind::AddConst {
                        param_idx: 0,
                    }),
                },
                OutputVarInfo {
                    ty: plain("felt", 1),
                    ref_info: OutputVarReferenceInfo::NewTempVar { idx: Some(0) },
                },
            ],
            ap_change: SierraApChange::Known { new_vars_only: false },
        }],
        fallthrough: Some(0),
    };
    assert_eq!(signature, Ok(expected));
}

#[test]
fn storage_read_signature_fails_on_the_first_missing_type() {
    let mut registry = TypeRegistry::new();
    assert_eq!(
        StorageReadLibFunc {}.specialize_signature(&registry),
        Err(SpecializationError::UnsupportedId)
    );
    registry.register(system_type_id(), true, false, false, 1);
    registry.register(StorageAddressType::id(), true, true, true, 1);
    assert_eq!(
        StorageReadLibFunc {}.specialize_signature(&registry),
        Err(SpecializationError::UnsupportedId)
    );
    registry.register(felt_type_id(), true, true, true, 1);
    assert!(StorageReadLibFunc {}.specialize_signature(&registry).is_ok());
}

#[test]
fn storage_write_signature_over_a_full_registry() {
    let signature = StorageWriteLibFunc::default().specialize_signature(&full_registry());
    let gas_out = || OutputVarInfo {
        ty: gas_ty(),
        ref_info: OutputVarReferenceInfo::Deferred(DeferredOutputKind::Generic),
    };
    let system_out = || OutputVarInfo {
        ty: system_ty(),
        ref_info: OutputVarReferenceInfo::Deferred(DeferredOutputKind::Generic),
    };
    let expected = LibFuncSignature {
        param_signatures: vec![
            ParamSignature::new(gas_ty()),
            system_param(),
            ParamSignature::new(plain("StorageAddress", 1)),
            ParamSignature::new(plain("felt", 1)),
        ],
        branch_signatures: vec![
            BranchSignature {
                vars: vec![gas_out(), system_out()],
                ap_change: SierraApChange::Known { new_vars_only: false },
            },
            BranchSignature {
                vars: vec![
                    gas_out(),
                    system_out(),
                    OutputVarInfo {
                        ty: plain("felt", 1),
                        ref_info: OutputVarReferenceInfo::NewTempVar { idx: Some(0) },
                    },
                ],
                ap_change: SierraApChange::Known { new_vars_only: false },
            },
        ],
        fallthrough: Some(0),
    };
    assert_eq!(signature, Ok(expected));
}

#[test]
fn storage_write_returns_gas_and_channel_as_deferred_generic_on_both_branches() {
    let signature = StorageWriteLibFunc {}.specialize_signature(&full_registry()).unwrap();
    for branch in &signature.branch_signatures {
        assert_eq!(
            branch.vars[0].ref_info,
            OutputVarReferenceInfo::Deferred(DeferredOutputKind::Generic)
        );
        assert_eq!(
            branch.vars[1].ref_info,
            OutputVarReferenceInfo::Deferred(DeferredOutputKind::Generic)
        );
        assert_eq!(branch.vars[0].ty, gas_ty());
        assert_eq!(branch.vars[1].ty, system_ty());
    }
}

#[test]
fn storage_write_failure_branch_is_a_branch_of_its_own() {
    let signature = StorageWriteLibFunc {}.specialize_signature(&full_registry()).unwrap();
    assert_eq!(signature.branch_signatures.len(), 2);
    assert_eq!(signature.fallthrough, Some(0));
    assert_eq!(signature.branch_signatures[0].vars.len(), 2);
    assert_eq!(signature.branch_signatures[1].vars.len(), 3);
    assert_eq!(
        signature.branch_signatures[1].vars[2].ref_info,
        OutputVarReferenceInfo::NewTempVar { idx: Some(0) }
    );
}

#[test]
fn storage_write_signature_fails_without_the_gas_counter() {
    let mut registry = TypeRegistry::new();
    registry.register(felt_type_id(), true, true, true, 1);
    registry.register(system_type_id(), true, false, false, 1);
    registry.register(StorageAddressType::id(), true, true, true, 1);
    assert_eq!(
        StorageWriteLibFunc {}.specialize_signature(&registry),
        Err(SpecializationError::UnsupportedId)
    );
}

#[test]
fn storage_address_const_bounds() {
    assert!(is_storage_address_const(&BigInt::from(0)));
    assert!(is_storage_address_const(&BigInt::from(1)));
    assert!(is_storage_address_const(&(two_pow(251) - 1)));
    assert!(!is_storage_address_const(&two_pow(251)));
    assert!(!is_storage_address_const(&(two_pow(251) + 1)));
    assert!(!is_storage_address_const(&two_pow(252)));
    assert!(!is_storage_address_const(&BigInt::from(-1)));
    assert!(is_storage_address_const(&(two_pow(251) - 256)));
}

#[test]
fn storage_address_const_signature_returns_one_constant() {
    let signature = StorageAddressConstLibFuncWrapped::default()
        .specialize_signature(&full_registry())
        .unwrap();
    assert!(signature.param_signatures.is_empty());
    assert_eq!(signature.fallthrough, Some(0));
    assert_eq!(
        signature.branch_signatures,
        vec![BranchSignature {
            vars: vec![OutputVarInfo {
                ty: plain("StorageAddress", 1),
                ref_info: OutputVarReferenceInfo::Const,
            }],
            ap_change: SierraApChange::Known { new_vars_only: true },
        }]
    );
}

#[test]
fn storage_address_const_specialize_accepts_the_largest_address() {
    let args = vec![GenericArg::Value(two_pow(251) - 1)];
    let libfunc =
        StorageAddressConstLibFuncWrapped {}.specialize(&full_registry(), &args).unwrap();
    assert_eq!(libfunc.c, two_pow(251) - 1);
    assert_eq!(libfunc.signature.branch_signatures.len(), 1);
}

#[test]
fn storage_address_const_specialize_refuses_the_bound() {
    let args = vec![GenericArg::Value(two_pow(251))];
    assert_eq!(
        StorageAddressConstLibFuncWrapped {}.specialize(&full_registry(), &args),
        Err(SpecializationError::UnsupportedGenericArg)
    );
    let args = vec![GenericArg::Value(BigInt::from(-1))];
    assert_eq!(
        StorageAddressConstLibFuncWrapped {}.specialize(&full_registry(), &args),
        Err(SpecializationError::UnsupportedGenericArg)
    );
}

#[test]
fn storage_address_const_specialize_wants_one_constant() {
    let registry = full_registry();
    assert_eq!(
        StorageAddressConstLibFuncWrapped {}.specialize(&registry, &[]),
        Err(SpecializationError::WrongNumberOfGenericArgs)
    );
    let two = vec![GenericArg::Value(BigInt::from(1)), GenericArg::Value(BigInt::from(2))];
    assert_eq!(
        StorageAddressConstLibFuncWrapped {}.specialize(&registry, &two),
        Err(SpecializationError::WrongNumberOfGenericArgs)
    );
    let a_type = vec![GenericArg::Type(ConcreteTypeId { id: 4 })];
    assert_eq!(
        StorageAddressConstLibFuncWrapped {}.specialize(&registry, &a_type),
        Err(SpecializationError::UnsupportedGenericArg)
    );
    let fine = vec![GenericArg::Value(BigInt::from(5))];
    assert_eq!(
        StorageAddressConstLibFuncWrapped {}.specialize(&TypeRegistry::new(), &fine),
        Err(SpecializationError::UnsupportedId)
    );
}

#[test]
fn generic_arg_clone_is_equal() {
    let value = GenericArg::Value(two_pow(100));
    assert_eq!(value.clone(), value);
    let ty = GenericArg::Type(ConcreteTypeId { id: 9 });
    assert_eq!(ty.clone(), ty);
    let long = ConcreteType {
        long_id: ConcreteTypeLongId {
            generic_id: GenericTypeId::new("Array"),
            generic_args: vec![ty, value],
        },
        storable: true,
        droppable: true,
        duplicatable: false,
        size: 2,
    };
    assert_eq!(long.clone(), long);
}
