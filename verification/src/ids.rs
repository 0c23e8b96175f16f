//! Identifiers of generic types and library functions, of concrete types,
//! and of statements.

use vstd::prelude::*;

verus! {

/// The name of a family of types, before its arguments are given.
#[derive(Debug, PartialEq, Eq)]
pub struct GenericTypeId {
    pub name: String,
}

/// The name of a family of library functions, before its arguments are given.
#[derive(Debug, PartialEq, Eq)]
pub struct GenericLibFuncId {
    pub name: String,
}

/// A concrete type, named by the number under which the program declares it.
#[derive(Clone, Copy, Debug, PartialEq, Eq, Hash, Structural)]
pub struct ConcreteTypeId {
    pub id: u64,
}

/// The position of a statement in the program.
#[derive(Clone, Copy, Debug, PartialEq, Eq, Hash, Structural)]
pub struct StatementIdx(pub usize);

impl View for GenericTypeId {
    type V = Seq<char>;

    open spec fn view(&self) -> Seq<char> {
        self.name@
    }
}

impl View for GenericLibFuncId {
    type V = Seq<char>;

    open spec fn view(&self) -> Seq<char> {
        self.name@
    }
}

impl Clone for GenericTypeId {
    fn clone(&self) -> (r: Self)
        ensures
            r@ == self@,
    {
        GenericTypeId { name: self.name.clone() }
    }
}

impl Clone for GenericLibFuncId {
    fn clone(&self) -> (r: Self)
        ensures
            r@ == self@,
    {
        GenericLibFuncId { name: self.name.clone() }
    }
}

impl GenericTypeId {
    /// The identifier with the given name.
    pub fn new(name: &str) -> (r: GenericTypeId)
        ensures
            r@ == name@,
    {
        GenericTypeId { name: name.to_owned() }
    }

    /// Whether two identifiers name the same family.
    pub fn same(&self, other: &GenericTypeId) -> (r: bool)
        ensures
            r == (self@ == other@),
    {
        self.name == other.name
    }
}

impl GenericLibFuncId {
    /// The identifier with the given name.
    pub fn new(name: &str) -> (r: GenericLibFuncId)
        ensures
            r@ == name@,
    {
        GenericLibFuncId { name: name.to_owned() }
    }
}

} // verus!
