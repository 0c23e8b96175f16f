//! The signature of a concrete library function: what it takes, and for
//! each branch what it returns and what it does to the allocation pointer.
//! A signature is made once, by specialization against a context that
//! resolves type names, and is not changed afterwards.

use crate::bigint::bigint_clone;
use crate::bigint::bigint_value;
use crate::ids::ConcreteTypeId;
use crate::ids::GenericTypeId;
use num_bigint::BigInt;
use vstd::prelude::*;

verus! {

/// Why a generic type or library function could not be made concrete.
#[derive(Clone, Copy, Debug, PartialEq, Eq, Structural)]
pub enum SpecializationError {
    /// No type or function goes by the name given.
    UnsupportedId,
    /// The number of arguments is not what the name takes.
    WrongNumberOfGenericArgs,
    /// An argument is of the wrong kind, or a constant is out of range.
    UnsupportedGenericArg,
}

/// An argument of a generic type or library function.
#[derive(Debug, PartialEq, Eq)]
pub enum GenericArg {
    Type(ConcreteTypeId),
    Value(BigInt),
}

pub enum GenericArgView {
    Type(ConcreteTypeId),
    Value(int),
}

impl View for GenericArg {
    type V = GenericArgView;

    open spec fn view(&self) -> GenericArgView {
        match *self {
            GenericArg::Type(id) => GenericArgView::Type(id),
            GenericArg::Value(value) => GenericArgView::Value(bigint_value(value)),
        }
    }
}

impl Clone for GenericArg {
    fn clone(&self) -> (r: Self)
        ensures
            r@ == self@,
    {
        match self {
            GenericArg::Type(id) => GenericArg::Type(*id),
            GenericArg::Value(value) => GenericArg::Value(bigint_clone(value)),
        }
    }
}

/// The arguments of a list, each as what it stands for.
pub open spec fn generic_args_view(args: Seq<GenericArg>) -> Seq<GenericArgView> {
    args.map_values(|a: GenericArg| a@)
}

/// The long form of a concrete type's name: the family and its arguments.
#[derive(Debug, PartialEq, Eq)]
pub struct ConcreteTypeLongId {
    pub generic_id: GenericTypeId,
    pub generic_args: Vec<GenericArg>,
}

pub struct ConcreteTypeLongIdView {
    pub generic_id: Seq<char>,
    pub generic_args: Seq<GenericArgView>,
}

impl View for ConcreteTypeLongId {
    type V = ConcreteTypeLongIdView;

    open spec fn view(&self) -> ConcreteTypeLongIdView {
        ConcreteTypeLongIdView {
            generic_id: self.generic_id@,
            generic_args: generic_args_view(self.generic_args@),
        }
    }
}

/// Copies a list of arguments.
pub fn clone_generic_args(args: &[GenericArg]) -> (r: Vec<GenericArg>)
    ensures
        generic_args_view(r@) == generic_args_view(args@),
{
    let mut out: Vec<GenericArg> = Vec::new();
    let mut i: usize = 0;
    while i < args.len()
        invariant
            i <= args.len(),
            out@.len() == i,
            forall|j: int| 0 <= j < i ==> (#[trigger] out@[j])@ == args@[j]@,
        decreases args.len() - i,
    {
        out.push(args[i].clone());
        i += 1;
    }
    assert(generic_args_view(out@) =~= generic_args_view(args@));
    out
}

impl Clone for ConcreteTypeLongId {
    fn clone(&self) -> (r: Self)
        ensures
            r@ == self@,
    {
        ConcreteTypeLongId {
            generic_id: self.generic_id.clone(),
            generic_args: clone_generic_args(self.generic_args.as_slice()),
        }
    }
}

/// A concrete type: its name, what may be done with its values, and how
/// many words a value takes.
#[derive(Debug, PartialEq, Eq)]
pub struct ConcreteType {
    pub long_id: ConcreteTypeLongId,
    pub storable: bool,
    pub droppable: bool,
    pub duplicatable: bool,
    pub size: usize,
}

pub struct ConcreteTypeView {
    pub long_id: ConcreteTypeLongIdView,
    pub storable: bool,
    pub droppable: bool,
    pub duplicatable: bool,
    pub size: nat,
}

impl View for ConcreteType {
    type V = ConcreteTypeView;

    open spec fn view(&self) -> ConcreteTypeView {
        ConcreteTypeView {
            long_id: self.long_id@,
            storable: self.storable,
            droppable: self.droppable,
            duplicatable: self.duplicatable,
            size: self.size as nat,
        }
    }
}

impl Clone for ConcreteType {
    fn clone(&self) -> (r: Self)
        ensures
            r@ == self@,
    {
        ConcreteType {
            long_id: self.long_id.clone(),
            storable: self.storable,
            droppable: self.droppable,
            duplicatable: self.duplicatable,
            size: self.size,
        }
    }
}

/// Resolves the name of a type family and its arguments to a concrete type.
/// What comes back depends on the name and the arguments alone: asking
/// again gives the same answer.
pub trait SignatureSpecializationContext {
    /// What the context resolves a name and its arguments to.
    spec fn concrete_type(&self, id: Seq<char>, generic_args: Seq<GenericArgView>) -> Result<
        ConcreteTypeView,
        SpecializationError,
    >;

    /// The concrete type for `id` with `generic_args`, or the reason why
    /// there is none.
    fn get_concrete_type(&self, id: GenericTypeId, generic_args: &[GenericArg]) -> (r: Result<
        ConcreteType,
        SpecializationError,
    >)
        ensures
            concrete_type_result_view(r) == self.concrete_type(
                id@,
                generic_args_view(generic_args@),
            ),
    ;
}

/// The answer of a context, with the type as what it stands for.
pub open spec fn concrete_type_result_view(r: Result<ConcreteType, SpecializationError>) -> Result<
    ConcreteTypeView,
    SpecializationError,
> {
    match r {
        Ok(ty) => Ok(ty@),
        Err(e) => Err(e),
    }
}

/// What is allowed of the operand that an argument is passed in.
#[derive(Debug, PartialEq, Eq)]
pub struct ParamSignature {
    /// The type of the argument.
    pub ty: ConcreteType,
    /// Whether the argument may be a value that is still to be computed.
    pub allow_deferred: bool,
    /// Whether the argument may be a cell plus a constant.
    pub allow_add_const: bool,
    /// Whether the argument may be a constant.
    pub allow_const: bool,
}

pub struct ParamSignatureView {
    pub ty: ConcreteTypeView,
    pub allow_deferred: bool,
    pub allow_add_const: bool,
    pub allow_const: bool,
}

impl View for ParamSignature {
    type V = ParamSignatureView;

    open spec fn view(&self) -> ParamSignatureView {
        ParamSignatureView {
            ty: self.ty@,
            allow_deferred: self.allow_deferred,
            allow_add_const: self.allow_add_const,
            allow_const: self.allow_const,
        }
    }
}

impl ParamSignatureView {
    /// The signature of a parameter that must be a plain value in a cell.
    pub open spec fn plain(ty: ConcreteTypeView) -> ParamSignatureView {
        ParamSignatureView { ty, allow_deferred: false, allow_add_const: false, allow_const: false }
    }
}

impl ParamSignature {
    /// The signature of a parameter that must be a plain value in a cell.
    pub fn new(ty: ConcreteType) -> (r: ParamSignature)
        ensures
            r@ == ParamSignatureView::plain(ty@),
    {
        ParamSignature { ty, allow_deferred: false, allow_add_const: false, allow_const: false }
    }
}

/// How a value that is still to be computed comes about.
#[derive(Clone, Copy, Debug, PartialEq, Eq, Structural)]
pub enum DeferredOutputKind {
    /// It is a constant.
    Const,
    /// It is the parameter at `param_idx` plus a constant.
    AddConst { param_idx: usize },
    /// Nothing more is known of it.
    Generic,
}

/// Where an output is found, relative to the inputs and the allocation pointer.
#[derive(Clone, Copy, Debug, PartialEq, Eq, Structural)]
pub enum OutputVarReferenceInfo {
    /// Where the parameter at `param_idx` was.
    SameAsParam { param_idx: usize },
    /// In a new temporary; `idx` is its place among the new temporaries,
    /// where that is known.
    NewTempVar { idx: Option<usize> },
    /// In a new local variable.
    NewLocalVar,
    /// Still to be computed.
    Deferred(DeferredOutputKind),
    /// It is a constant.
    Const,
}

/// An output of one branch.
#[derive(Debug, PartialEq, Eq)]
pub struct OutputVarInfo {
    pub ty: ConcreteType,
    pub ref_info: OutputVarReferenceInfo,
}

pub struct OutputVarInfoView {
    pub ty: ConcreteTypeView,
    pub ref_info: OutputVarReferenceInfo,
}

impl View for OutputVarInfo {
    type V = OutputVarInfoView;

    open spec fn view(&self) -> OutputVarInfoView {
        OutputVarInfoView { ty: self.ty@, ref_info: self.ref_info }
    }
}

/// What a branch does to the allocation pointer, as far as the signature says.
#[derive(Clone, Copy, Debug, PartialEq, Eq, Structural)]
pub enum SierraApChange {
    /// The change cannot be told from the signature.
    Unknown,
    /// The change is fixed; with `new_vars_only` it is exactly the size of
    /// the new temporaries among the outputs.
    Known { new_vars_only: bool },
}

/// The outputs of one branch and its effect on the allocation pointer.
#[derive(Debug, PartialEq, Eq)]
pub struct BranchSignature {
    pub vars: Vec<OutputVarInfo>,
    pub ap_change: SierraApChange,
}

pub struct BranchSignatureView {
    pub vars: Seq<OutputVarInfoView>,
    pub ap_change: SierraApChange,
}

impl View for BranchSignature {
    type V = BranchSignatureView;

    open spec fn view(&self) -> BranchSignatureView {
        BranchSignatureView {
            vars: self.vars@.map_values(|v: OutputVarInfo| v@),
            ap_change: self.ap_change,
        }
    }
}

/// The signature of a concrete library function.
#[derive(Debug, PartialEq, Eq)]
pub struct LibFuncSignature {
    pub param_signatures: Vec<ParamSignature>,
    pub branch_signatures: Vec<BranchSignature>,
    /// The branch that continues with the next statement, if there is one.
    pub fallthrough: Option<usize>,
}

pub struct LibFuncSignatureView {
    pub param_signatures: Seq<ParamSignatureView>,
    pub branch_signatures: Seq<BranchSignatureView>,
    pub fallthrough: Option<usize>,
}

impl View for LibFuncSignature {
    type V = LibFuncSignatureView;

    open spec fn view(&self) -> LibFuncSignatureView {
        LibFuncSignatureView {
            param_signatures: self.param_signatures@.map_values(|p: ParamSignature| p@),
            branch_signatures: self.branch_signatures@.map_values(|b: BranchSignature| b@),
            fallthrough: self.fallthrough,
        }
    }
}

impl LibFuncSignatureView {
    /// Whether an output's place can be found from the inputs: a parameter
    /// it refers to exists, and one that a constant is added to is not
    /// itself allowed to be a constant.
    pub open spec fn realizable(self, ref_info: OutputVarReferenceInfo) -> bool {
        match ref_info {
            OutputVarReferenceInfo::SameAsParam { param_idx } => param_idx
                < self.param_signatures.len(),
            OutputVarReferenceInfo::Deferred(DeferredOutputKind::AddConst { param_idx }) => {
                param_idx < self.param_signatures.len()
                    && !self.param_signatures[param_idx as int].allow_const
            },
            _ => true,
        }
    }

    /// At most one branch falls through, and it is one of the branches;
    /// every output can be found from the inputs.
    pub open spec fn wf(self) -> bool {
        &&& self.fallthrough matches Some(branch) ==> branch < self.branch_signatures.len()
        &&& forall|b: int, v: int|
            0 <= b < self.branch_signatures.len() && 0 <= v < self.branch_signatures[b].vars.len()
                ==> self.realizable((#[trigger] self.branch_signatures[b].vars[v]).ref_info)
    }

    /// The signature of a function with one branch, which falls through.
    pub open spec fn non_branch(
        params: Seq<ParamSignatureView>,
        outputs: Seq<OutputVarInfoView>,
        ap_change: SierraApChange,
    ) -> LibFuncSignatureView {
        LibFuncSignatureView {
            param_signatures: params,
            branch_signatures: seq![BranchSignatureView { vars: outputs, ap_change }],
            fallthrough: Some(0usize),
        }
    }
}

impl LibFuncSignature {
    /// The signature of a function with one branch, which falls through.
    pub fn new_non_branch_ex(
        param_signatures: Vec<ParamSignature>,
        output_info: Vec<OutputVarInfo>,
        ap_change: SierraApChange,
    ) -> (r: LibFuncSignature)
        ensures
            r@ == LibFuncSignatureView::non_branch(
                param_signatures@.map_values(|p: ParamSignature| p@),
                output_info@.map_values(|v: OutputVarInfo| v@),
                ap_change,
            ),
    {
        let ghost outputs = output_info@.map_values(|v: OutputVarInfo| v@);
        let mut branch_signatures: Vec<BranchSignature> = Vec::new();
        branch_signatures.push(BranchSignature { vars: output_info, ap_change });
        let r = LibFuncSignature { param_signatures, branch_signatures, fallthrough: Some(0) };
        assert(r@.branch_signatures =~= seq![BranchSignatureView { vars: outputs, ap_change }]);
        r
    }
}

/// A concrete library function that is known by its signature alone.
#[derive(Debug, PartialEq, Eq)]
pub struct SignatureOnlyConcreteLibFunc {
    pub signature: LibFuncSignature,
}

/// A concrete library function that is known by its signature and one
/// constant argument.
#[derive(Debug, PartialEq, Eq)]
pub struct SignatureAndConstConcreteLibFunc {
    pub c: BigInt,
    pub signature: LibFuncSignature,
}

} // verus!
