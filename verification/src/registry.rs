//! A table of the types that take no arguments, and the specialization
//! context that answers from it.

use crate::ids::GenericTypeId;
use crate::lib_func::generic_args_view;
use crate::lib_func::ConcreteType;
use crate::lib_func::ConcreteTypeLongId;
use crate::lib_func::ConcreteTypeLongIdView;
use crate::lib_func::ConcreteTypeView;
use crate::lib_func::GenericArg;
use crate::lib_func::GenericArgView;
use crate::lib_func::SignatureSpecializationContext;
use crate::lib_func::SpecializationError;
use vstd::prelude::*;

verus! {

/// The types that were registered, in the order of registration. A name
/// registered twice keeps its first entry.
#[derive(Debug, PartialEq, Eq)]
pub struct TypeRegistry {
    types: Vec<ConcreteType>,
}

/// The types of a list, each as what it stands for.
pub open spec fn types_view(types: Seq<ConcreteType>) -> Seq<ConcreteTypeView> {
    types.map_values(|t: ConcreteType| t@)
}

/// The first type of the list that goes by `name`, if there is one.
pub open spec fn first_named(types: Seq<ConcreteTypeView>, name: Seq<char>) -> Option<
    ConcreteTypeView,
>
    decreases types.len(),
{
    if types.len() == 0 {
        None
    } else if types[0].long_id.generic_id == name {
        Some(types[0])
    } else {
        first_named(types.drop_first(), name)
    }
}

/// The entry of a type without arguments.
pub open spec fn plain_type(
    name: Seq<char>,
    storable: bool,
    droppable: bool,
    duplicatable: bool,
    size: nat,
) -> ConcreteTypeView {
    ConcreteTypeView {
        long_id: ConcreteTypeLongIdView { generic_id: name, generic_args: Seq::empty() },
        storable,
        droppable,
        duplicatable,
        size,
    }
}

impl View for TypeRegistry {
    type V = Seq<ConcreteTypeView>;

    closed spec fn view(&self) -> Seq<ConcreteTypeView> {
        types_view(self.types@)
    }
}

/// If no type among the first `upto` goes by `name`, the first that does
/// is the first among the rest.
proof fn lemma_first_named_skip(types: Seq<ConcreteTypeView>, name: Seq<char>, upto: int)
    requires
        0 <= upto <= types.len(),
        forall|j: int| 0 <= j < upto ==> (#[trigger] types[j]).long_id.generic_id != name,
    ensures
        first_named(types, name) == first_named(types.skip(upto), name),
    decreases upto,
{
    if upto == 0 {
        assert(types.skip(0) =~= types);
    } else {
        lemma_first_named_skip(types.drop_first(), name, upto - 1);
        assert forall|j: int| 0 <= j < upto - 1 implies (#[trigger] types.drop_first()[j]).long_id.generic_id
            != name by {
            assert(types.drop_first()[j] == types[j + 1]);
        }
        assert(types.drop_first().skip(upto - 1) =~= types.skip(upto));
    }
}

impl TypeRegistry {
    /// The table without entries.
    pub fn new() -> (r: TypeRegistry)
        ensures
            r@ == Seq::<ConcreteTypeView>::empty(),
    {
        let r = TypeRegistry { types: Vec::new() };
        assert(r@ =~= Seq::empty());
        r
    }

    /// Adds a type without arguments as the last entry.
    pub fn register(
        &mut self,
        id: GenericTypeId,
        storable: bool,
        droppable: bool,
        duplicatable: bool,
        size: usize,
    )
        ensures
            final(self)@ == old(self)@.push(
                plain_type(id@, storable, droppable, duplicatable, size as nat),
            ),
    {
        let ty = ConcreteType {
            long_id: ConcreteTypeLongId { generic_id: id, generic_args: Vec::new() },
            storable,
            droppable,
            duplicatable,
            size,
        };
        assert(generic_args_view(ty.long_id.generic_args@) =~= Seq::empty());
        self.types.push(ty);
        assert(self@ =~= old(self)@.push(ty@));
    }
}

impl SignatureSpecializationContext for TypeRegistry {
    /// A name that no entry goes by is not supported. A name that is
    /// registered takes no arguments, and resolves to its first entry.
    open spec fn concrete_type(&self, id: Seq<char>, generic_args: Seq<GenericArgView>) -> Result<
        ConcreteTypeView,
        SpecializationError,
    > {
        match first_named(self@, id) {
            None => Err(SpecializationError::UnsupportedId),
            Some(ty) => if generic_args.len() != 0 {
                Err(SpecializationError::WrongNumberOfGenericArgs)
            } else {
                Ok(ty)
            },
        }
    }

    fn get_concrete_type(&self, id: GenericTypeId, generic_args: &[GenericArg]) -> (r: Result<
        ConcreteType,
        SpecializationError,
    >) {
        let mut i: usize = 0;
        while i < self.types.len()
            invariant
                i <= self.types.len(),
                forall|j: int| 0 <= j < i ==> (#[trigger] self@[j]).long_id.generic_id != id@,
            decreases self.types.len() - i,
        {
            if self.types[i].long_id.generic_id.same(&id) {
                proof {
                    lemma_first_named_skip(self@, id@, i as int);
                    assert(self@.skip(i as int)[0] == self@[i as int]);
                }
                if generic_args.len() != 0 {
                    return Err(SpecializationError::WrongNumberOfGenericArgs);
                }
                return Ok(self.types[i].clone());
            }
            assert(self@[i as int] == self.types@[i as int]@);
            i += 1;
        }
        proof {
            lemma_first_named_skip(self@, id@, self@.len() as int);
            assert(self@.skip(self@.len() as int) =~= Seq::empty());
        }
        Err(SpecializationError::UnsupportedId)
    }
}

/// Asking a context twice for the same name with the same arguments gives
/// the same answer both times: the same type in every field, or the same
/// error.
pub proof fn lemma_get_concrete_type_idempotent<C: SignatureSpecializationContext>(
    context: &C,
    id: Seq<char>,
    generic_args: Seq<GenericArgView>,
    first: Result<ConcreteType, SpecializationError>,
    second: Result<ConcreteType, SpecializationError>,
)
    requires
        crate::lib_func::concrete_type_result_view(first) == context.concrete_type(
            id,
            generic_args,
        ),
        crate::lib_func::concrete_type_result_view(second) == context.concrete_type(
            id,
            generic_args,
        ),
    ensures
        crate::lib_func::concrete_type_result_view(first)
            == crate::lib_func::concrete_type_result_view(second),
        first matches Ok(a) ==> second matches Ok(b) && a@ == b@,
        first matches Err(e) ==> second == Err::<ConcreteType, SpecializationError>(e),
{
}

} // verus!
