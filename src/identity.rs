//! Identity tokens for concrete types and interfaces.
use std::any::TypeId;
use vstd::prelude::*;

verus! {

#[verifier::external_type_specification]
#[verifier::external_body]
pub struct ExTypeId(std::any::TypeId);

/// Relies on `TypeId`'s `==`: two ids compare equal exactly when they are the same id.
#[verifier::external_body]
pub(crate) fn same_type_id(a: &TypeId, b: &TypeId) -> (r: bool)
    ensures
        r == (*a == *b),
{
    *a == *b
}

/// Relies on `TypeId::of`: the process-stable id of the type `T`.
#[verifier::external_body]
fn type_id_of<T: ?Sized + 'static>() -> TypeId {
    TypeId::of::<T>()
}

/// The identity of a concrete type or of an interface: a comparable id, and a
/// name that only serves diagnostics.
#[derive(Clone, Copy, Debug)]
pub struct TypeIdentity {
    pub id: TypeId,
    pub name: &'static str,
}

impl TypeIdentity {
    /// The identity of `T`, shown in diagnostics under `name`.
    pub fn of<T: ?Sized + 'static>(name: &'static str) -> (r: TypeIdentity)
        ensures
            r.name == name,
    {
        TypeIdentity { id: type_id_of::<T>(), name }
    }

    /// Whether two identities denote the same type; names are not compared.
    pub fn same_as(&self, other: &TypeIdentity) -> (r: bool)
        ensures
            r == (self.id == other.id),
    {
        same_type_id(&self.id, &other.id)
    }
}

} // verus!
