//! The storage address type and the library functions that read and write
//! contract storage through the system-call channel.

use crate::bigint::bigint_clone;
use crate::bigint::bigint_from_i64;
use crate::bigint::bigint_ge;
use crate::bigint::bigint_shl;
use crate::bigint::bigint_value;
use crate::ids::GenericLibFuncId;
use crate::ids::GenericTypeId;
use crate::lib_func::generic_args_view;
use crate::lib_func::BranchSignature;
use crate::lib_func::BranchSignatureView;
use crate::lib_func::ConcreteType;
use crate::lib_func::ConcreteTypeLongId;
use crate::lib_func::ConcreteTypeLongIdView;
use crate::lib_func::ConcreteTypeView;
use crate::lib_func::DeferredOutputKind;
use crate::lib_func::GenericArg;
use crate::lib_func::GenericArgView;
use crate::lib_func::LibFuncSignature;
use crate::lib_func::LibFuncSignatureView;
use crate::lib_func::OutputVarInfo;
use crate::lib_func::OutputVarInfoView;
use crate::lib_func::OutputVarReferenceInfo;
use crate::lib_func::ParamSignature;
use crate::lib_func::ParamSignatureView;
use crate::lib_func::SierraApChange;
use crate::lib_func::SignatureAndConstConcreteLibFunc;
use crate::lib_func::SignatureSpecializationContext;
use crate::lib_func::SpecializationError;
use num_bigint::BigInt;
use vstd::arithmetic::power2::pow2;
use vstd::prelude::*;

verus! {

/// The name of the field element type.
pub open spec fn felt_type_name() -> Seq<char> {
    "felt"@
}

/// The name of the gas counter type.
pub open spec fn gas_builtin_type_name() -> Seq<char> {
    "GasBuiltin"@
}

/// The name of the system-call channel type.
pub open spec fn system_type_name() -> Seq<char> {
    "System"@
}

/// The name of the storage address type.
pub open spec fn storage_address_type_name() -> Seq<char> {
    "StorageAddress"@
}

/// The identifier of the field element type.
pub fn felt_type_id() -> (r: GenericTypeId)
    ensures
        r@ == felt_type_name(),
{
    GenericTypeId::new("felt")
}

/// The identifier of the gas counter type.
pub fn gas_builtin_type_id() -> (r: GenericTypeId)
    ensures
        r@ == gas_builtin_type_name(),
{
    GenericTypeId::new("GasBuiltin")
}

/// The identifier of the system-call channel type.
pub fn system_type_id() -> (r: GenericTypeId)
    ensures
        r@ == system_type_name(),
{
    GenericTypeId::new("System")
}

/// What a context resolves a type without arguments to.
pub open spec fn resolved<C: SignatureSpecializationContext>(context: &C, name: Seq<char>) -> Result<
    ConcreteTypeView,
    SpecializationError,
> {
    context.concrete_type(name, Seq::empty())
}

/// Asks a context for a type without arguments.
fn resolve<C: SignatureSpecializationContext>(context: &C, id: GenericTypeId) -> (r: Result<
    ConcreteType,
    SpecializationError,
>)
    ensures
        crate::lib_func::concrete_type_result_view(r) == resolved(context, id@),
{
    let no_args: Vec<GenericArg> = Vec::new();
    assert(generic_args_view(no_args@) =~= Seq::empty());
    context.get_concrete_type(id, no_args.as_slice())
}

/// The signature that specialization gave, as what it stands for.
pub open spec fn signature_result_view(r: Result<LibFuncSignature, SpecializationError>) -> Result<
    LibFuncSignatureView,
    SpecializationError,
> {
    match r {
        Ok(signature) => Ok(signature@),
        Err(e) => Err(e),
    }
}

/// The signature of the parameter that carries the system-call channel: a
/// cell or a cell plus a constant, neither still to be computed nor a constant.
pub open spec fn system_param(ty: ConcreteTypeView) -> ParamSignatureView {
    ParamSignatureView { ty, allow_deferred: false, allow_add_const: true, allow_const: false }
}

/// Type for a storage address, a value in the range [0, 2 ** 251 - 256).
/// The type itself does not hold its values to the range.
#[derive(Default)]
pub struct StorageAddressType {}

/// The storage address type: one word, and a value of it may be stored,
/// dropped and duplicated.
pub open spec fn storage_address_type() -> ConcreteTypeView {
    ConcreteTypeView {
        long_id: ConcreteTypeLongIdView {
            generic_id: storage_address_type_name(),
            generic_args: Seq::empty(),
        },
        storable: true,
        droppable: true,
        duplicatable: true,
        size: 1,
    }
}

impl StorageAddressType {
    /// The identifier of the type.
    pub fn id() -> (r: GenericTypeId)
        ensures
            r@ == storage_address_type_name(),
    {
        GenericTypeId::new("StorageAddress")
    }

    /// The concrete type.
    pub fn specialize(&self) -> (r: ConcreteType)
        ensures
            r@ == storage_address_type(),
    {
        let r = ConcreteType {
            long_id: ConcreteTypeLongId {
                generic_id: StorageAddressType::id(),
                generic_args: Vec::new(),
            },
            storable: true,
            droppable: true,
            duplicatable: true,
            size: 1,
        };
        assert(generic_args_view(r.long_id.generic_args@) =~= Seq::empty());
        r
    }
}

/// The least integer that is not a storage address constant.
pub open spec fn storage_address_bound() -> int {
    pow2(251) as int
}

/// The bound, written out.
pub proof fn lemma_storage_address_bound()
    ensures
        storage_address_bound()
            == 0x800000000000000000000000000000000000000000000000000000000000000int,
{
    vstd::arithmetic::power2::lemma2_to64();
    vstd::arithmetic::power2::lemma2_to64_rest();
    vstd::arithmetic::power2::lemma_pow2_adds(64, 64);
    vstd::arithmetic::power2::lemma_pow2_adds(128, 64);
    vstd::arithmetic::power2::lemma_pow2_adds(192, 59);
}

/// Whether `c` can be the constant of a storage address: it is not
/// negative and lies below two to the power 251.
pub fn is_storage_address_const(c: &BigInt) -> (r: bool)
    ensures
        r == (0 <= bigint_value(*c) < storage_address_bound()),
{
    let zero = bigint_from_i64(0);
    let addr_bound = bigint_shl(bigint_from_i64(1), 251);
    bigint_ge(c, &zero) && !bigint_ge(c, &addr_bound)
}

/// LibFunc for creating a constant storage address.
#[derive(Default)]
pub struct StorageAddressConstLibFuncWrapped {}

/// The name of the library function that makes a constant storage address.
pub open spec fn storage_address_const_name() -> Seq<char> {
    "storage_address_const"@
}

/// The signature of a function that takes nothing and returns one constant
/// of type `ty`.
pub open spec fn const_signature(ty: ConcreteTypeView) -> LibFuncSignatureView {
    LibFuncSignatureView::non_branch(
        Seq::empty(),
        seq![OutputVarInfoView { ty, ref_info: OutputVarReferenceInfo::Const }],
        SierraApChange::Known { new_vars_only: true },
    )
}

/// What specializing the storage address constant with `generic_args`
/// comes to: the arguments must be one constant in range, and the context
/// must know the storage address type.
pub open spec fn storage_address_const_specialization<C: SignatureSpecializationContext>(
    context: &C,
    generic_args: Seq<GenericArgView>,
) -> Result<(int, LibFuncSignatureView), SpecializationError> {
    if generic_args.len() != 1 {
        Err(SpecializationError::WrongNumberOfGenericArgs)
    } else {
        match generic_args[0] {
            GenericArgView::Type(_) => Err(SpecializationError::UnsupportedGenericArg),
            GenericArgView::Value(c) => if !(0 <= c < storage_address_bound()) {
                Err(SpecializationError::UnsupportedGenericArg)
            } else {
                match resolved(context, storage_address_type_name()) {
                    Err(e) => Err(e),
                    Ok(ty) => Ok((c, const_signature(ty))),
                }
            },
        }
    }
}

impl StorageAddressConstLibFuncWrapped {
    /// The identifier of the library function.
    pub fn id() -> (r: GenericLibFuncId)
        ensures
            r@ == storage_address_const_name(),
    {
        GenericLibFuncId::new("storage_address_const")
    }

    /// The identifier of the type of the constant.
    pub fn generic_type_id() -> (r: GenericTypeId)
        ensures
            r@ == storage_address_type_name(),
    {
        StorageAddressType::id()
    }

    /// The signature: no input, one constant storage address as output.
    pub fn specialize_signature<C: SignatureSpecializationContext>(&self, context: &C) -> (r: Result<
        LibFuncSignature,
        SpecializationError,
    >)
        ensures
            signature_result_view(r) == match resolved(context, storage_address_type_name()) {
                Err(e) => Err(e),
                Ok(ty) => Ok(const_signature(ty)),
            },
            r matches Ok(signature) ==> signature@.wf(),
    {
        let ty = match resolve(context, StorageAddressType::id()) {
            Ok(ty) => ty,
            Err(e) => {
                return Err(e);
            },
        };
        let params: Vec<ParamSignature> = Vec::new();
        let outputs = vec![OutputVarInfo { ty, ref_info: OutputVarReferenceInfo::Const }];
        let r = LibFuncSignature::new_non_branch_ex(
            params,
            outputs,
            SierraApChange::Known { new_vars_only: true },
        );
        assert(r@.param_signatures =~= Seq::empty());
        assert(r@.branch_signatures[0].vars =~= const_signature(ty@).branch_signatures[0].vars);
        assert(r@.branch_signatures =~= const_signature(ty@).branch_signatures);
        Ok(r)
    }

    /// The concrete library function for the given arguments: exactly one
    /// constant, which must lie in `[0, 2^251)`.
    pub fn specialize<C: SignatureSpecializationContext>(
        &self,
        context: &C,
        generic_args: &[GenericArg],
    ) -> (r: Result<SignatureAndConstConcreteLibFunc, SpecializationError>)
        ensures
            match r {
                Ok(libfunc) => storage_address_const_specialization(
                    context,
                    generic_args_view(generic_args@),
                ) == Ok::<(int, LibFuncSignatureView), SpecializationError>(
                    (bigint_value(libfunc.c), libfunc.signature@),
                ) && libfunc.signature@.wf(),
                Err(e) => storage_address_const_specialization(
                    context,
                    generic_args_view(generic_args@),
                ) == Err::<(int, LibFuncSignatureView), SpecializationError>(e),
            },
    {
        if generic_args.len() != 1 {
            return Err(SpecializationError::WrongNumberOfGenericArgs);
        }
        match &generic_args[0] {
            GenericArg::Type(_) => Err(SpecializationError::UnsupportedGenericArg),
            GenericArg::Value(c) => {
                if !is_storage_address_const(c) {
                    return Err(SpecializationError::UnsupportedGenericArg);
                }
                match self.specialize_signature(context) {
                    Ok(signature) => Ok(
                        SignatureAndConstConcreteLibFunc { c: bigint_clone(c), signature },
                    ),
                    Err(e) => Err(e),
                }
            },
        }
    }
}

/// LibFunc for a storage read system call.
#[derive(Default)]
pub struct StorageReadLibFunc {}

/// The name of the storage read system call.
pub open spec fn storage_read_name() -> Seq<char> {
    "storage_read_syscall"@
}

/// The signature of the storage read: it takes the system-call channel and
/// an address; its one branch returns the channel, moved on by a constant,
/// and the value read, in a new temporary.
pub open spec fn storage_read_signature(
    system_ty: ConcreteTypeView,
    addr_ty: ConcreteTypeView,
    felt_ty: ConcreteTypeView,
) -> LibFuncSignatureView {
    LibFuncSignatureView::non_branch(
        seq![system_param(system_ty), ParamSignatureView::plain(addr_ty)],
        seq![
            OutputVarInfoView {
                ty: system_ty,
                ref_info: OutputVarReferenceInfo::Deferred(
                    DeferredOutputKind::AddConst { param_idx: 0 },
                ),
            },
            OutputVarInfoView {
                ty: felt_ty,
                ref_info: OutputVarReferenceInfo::NewTempVar { idx: Some(0usize) },
            },
        ],
        SierraApChange::Known { new_vars_only: false },
    )
}

/// What specializing the storage read against a context comes to: the
/// error of the first type that the context does not know, in the order
/// channel, address, field element; else the signature over the three.
pub open spec fn storage_read_specialization<C: SignatureSpecializationContext>(
    context: &C,
) -> Result<LibFuncSignatureView, SpecializationError> {
    match resolved(context, system_type_name()) {
        Err(e) => Err(e),
        Ok(system_ty) => match resolved(context, storage_address_type_name()) {
            Err(e) => Err(e),
            Ok(addr_ty) => match resolved(context, felt_type_name()) {
                Err(e) => Err(e),
                Ok(felt_ty) => Ok(storage_read_signature(system_ty, addr_ty, felt_ty)),
            },
        },
    }
}

impl StorageReadLibFunc {
    /// The identifier of the library function.
    pub fn id() -> (r: GenericLibFuncId)
        ensures
            r@ == storage_read_name(),
    {
        GenericLibFuncId::new("storage_read_syscall")
    }

    /// The signature of the storage read, over the types as the context
    /// resolves them.
    pub fn specialize_signature<C: SignatureSpecializationContext>(&self, context: &C) -> (r: Result<
        LibFuncSignature,
        SpecializationError,
    >)
        ensures
            signature_result_view(r) == storage_read_specialization(context),
            r matches Ok(signature) ==> signature@.wf(),
    {
        let system_ty = match resolve(context, system_type_id()) {
            Ok(ty) => ty,
            Err(e) => {
                return Err(e);
            },
        };
        let addr_ty = match resolve(context, StorageAddressType::id()) {
            Ok(ty) => ty,
            Err(e) => {
                return Err(e);
            },
        };
        let felt_ty = match resolve(context, felt_type_id()) {
            Ok(ty) => ty,
            Err(e) => {
                return Err(e);
            },
        };
        let ghost expected = storage_read_signature(system_ty@, addr_ty@, felt_ty@);
        let params = vec![
            ParamSignature {
                ty: system_ty.clone(),
                allow_deferred: false,
                allow_add_const: true,
                allow_const: false,
            },
            ParamSignature::new(addr_ty),
        ];
        let outputs = vec![
            OutputVarInfo {
                ty: system_ty,
                ref_info: OutputVarReferenceInfo::Deferred(
                    DeferredOutputKind::AddConst { param_idx: 0 },
                ),
            },
            OutputVarInfo { ty: felt_ty, ref_info: OutputVarReferenceInfo::NewTempVar { idx: Some(0) } },
        ];
        let r = LibFuncSignature::new_non_branch_ex(
            params,
            outputs,
            SierraApChange::Known { new_vars_only: false },
        );
        assert(r@.param_signatures =~= expected.param_signatures);
        assert(r@.branch_signatures[0].vars =~= expected.branch_signatures[0].vars);
        assert(r@.branch_signatures =~= expected.branch_signatures);
        Ok(r)
    }
}

/// LibFunc for a storage write system call.
#[derive(Default)]
pub struct StorageWriteLibFunc {}

/// The name of the storage write system call.
pub open spec fn storage_write_name() -> Seq<char> {
    "storage_write_syscall"@
}

/// The outputs that both branches of the storage write return: the gas
/// counter and the system-call channel. Both are still to be computed, and
/// the signature says no more of where they will be found.
pub open spec fn storage_write_common_outputs(
    gas_builtin_ty: ConcreteTypeView,
    system_ty: ConcreteTypeView,
) -> Seq<OutputVarInfoView> {
    seq![
        OutputVarInfoView {
            ty: gas_builtin_ty,
            ref_info: OutputVarReferenceInfo::Deferred(DeferredOutputKind::Generic),
        },
        OutputVarInfoView {
            ty: system_ty,
            ref_info: OutputVarReferenceInfo::Deferred(DeferredOutputKind::Generic),
        },
    ]
}

/// The signature of the storage write: it takes the gas counter, the
/// system-call channel, an address and a value. The first branch, which
/// falls through, is taken on success; the second, on failure, returns the
/// revert reason as well, in a new temporary.
pub open spec fn storage_write_signature(
    gas_builtin_ty: ConcreteTypeView,
    system_ty: ConcreteTypeView,
    addr_ty: ConcreteTypeView,
    felt_ty: ConcreteTypeView,
) -> LibFuncSignatureView {
    LibFuncSignatureView {
        param_signatures: seq![
            ParamSignatureView::plain(gas_builtin_ty),
            system_param(system_ty),
            ParamSignatureView::plain(addr_ty),
            ParamSignatureView::plain(felt_ty),
        ],
        branch_signatures: seq![
            BranchSignatureView {
                vars: storage_write_common_outputs(gas_builtin_ty, system_ty),
                ap_change: SierraApChange::Known { new_vars_only: false },
            },
            BranchSignatureView {
                vars: storage_write_common_outputs(gas_builtin_ty, system_ty).push(
                    OutputVarInfoView {
                        ty: felt_ty,
                        ref_info: OutputVarReferenceInfo::NewTempVar { idx: Some(0usize) },
                    },
                ),
                ap_change: SierraApChange::Known { new_vars_only: false },
            },
        ],
        fallthrough: Some(0usize),
    }
}

/// What specializing the storage write against a context comes to: the
/// error of the first type that the context does not know, in the order
/// gas counter, channel, address, field element; else the signature over
/// the four.
pub open spec fn storage_write_specialization<C: SignatureSpecializationContext>(
    context: &C,
) -> Result<LibFuncSignatureView, SpecializationError> {
    match resolved(context, gas_builtin_type_name()) {
        Err(e) => Err(e),
        Ok(gas_builtin_ty) => match resolved(context, system_type_name()) {
            Err(e) => Err(e),
            Ok(system_ty) => match resolved(context, storage_address_type_name()) {
                Err(e) => Err(e),
                Ok(addr_ty) => match resolved(context, felt_type_name()) {
                    Err(e) => Err(e),
                    Ok(felt_ty) => Ok(
                        storage_write_signature(gas_builtin_ty, system_ty, addr_ty, felt_ty),
                    ),
                },
            },
        },
    }
}

impl StorageWriteLibFunc {
    /// The identifier of the library function.
    pub fn id() -> (r: GenericLibFuncId)
        ensures
            r@ == storage_write_name(),
    {
        GenericLibFuncId::new("storage_write_syscall")
    }

    /// The signature of the storage write, over the types as the context
    /// resolves them.
    pub fn specialize_signature<C: SignatureSpecializationContext>(&self, context: &C) -> (r: Result<
        LibFuncSignature,
        SpecializationError,
    >)
        ensures
            signature_result_view(r) == storage_write_specialization(context),
            r matches Ok(signature) ==> signature@.wf(),
    {
        let gas_builtin_ty = match resolve(context, gas_builtin_type_id()) {
            Ok(ty) => ty,
            Err(e) => {
                return Err(e);
            },
        };
        let system_ty = match resolve(context, system_type_id()) {
            Ok(ty) => ty,
            Err(e) => {
                return Err(e);
            },
        };
        let addr_ty = match resolve(context, StorageAddressType::id()) {
            Ok(ty) => ty,
            Err(e) => {
                return Err(e);
            },
        };
        let felt_ty = match resolve(context, felt_type_id()) {
            Ok(ty) => ty,
            Err(e) => {
                return Err(e);
            },
        };
        let ghost expected = storage_write_signature(
            gas_builtin_ty@,
            system_ty@,
            addr_ty@,
            felt_ty@,
        );
        let param_signatures = vec![
            ParamSignature::new(gas_builtin_ty.clone()),
            ParamSignature {
                ty: system_ty.clone(),
                allow_deferred: false,
                allow_add_const: true,
                allow_const: false,
            },
            ParamSignature::new(addr_ty),
            ParamSignature::new(felt_ty.clone()),
        ];
        let success = BranchSignature {
            vars: vec![
                OutputVarInfo {
                    ty: gas_builtin_ty.clone(),
                    ref_info: OutputVarReferenceInfo::Deferred(DeferredOutputKind::Generic),
                },
                OutputVarInfo {
                    ty: system_ty.clone(),
                    ref_info: OutputVarReferenceInfo::Deferred(DeferredOutputKind::Generic),
                },
            ],
            ap_change: SierraApChange::Known { new_vars_only: false },
        };
        let failure = BranchSignature {
            vars: vec![
                OutputVarInfo {
                    ty: gas_builtin_ty,
                    ref_info: OutputVarReferenceInfo::Deferred(DeferredOutputKind::Generic),
                },
                OutputVarInfo {
                    ty: system_ty,
                    ref_info: OutputVarReferenceInfo::Deferred(DeferredOutputKind::Generic),
                },
                OutputVarInfo {
                    ty: felt_ty,
                    ref_info: OutputVarReferenceInfo::NewTempVar { idx: Some(0) },
                },
            ],
            ap_change: SierraApChange::Known { new_vars_only: false },
        };
        assert(success@.vars =~= expected.branch_signatures[0].vars);
        assert(failure@.vars =~= expected.branch_signatures[1].vars);
        let r = LibFuncSignature {
            param_signatures,
            branch_signatures: vec![success, failure],
            fallthrough: Some(0),
        };
        assert(r@.param_signatures =~= expected.param_signatures);
        assert(r@.branch_signatures =~= expected.branch_signatures);
        Ok(r)
    }
}

} // verus!
