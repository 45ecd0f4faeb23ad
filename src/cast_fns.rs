//! The cast engine: reinterprets a reference or an owning handle to an object
//! under another interface, through the dispatch table that the registry holds
//! for the object's concrete type.
use crate::identity::TypeIdentity;
use crate::trait_registry::{get_vtable, CastError, TraitVTableRegistry};
use std::rc::Rc;
use std::sync::Arc;
use vstd::prelude::*;

verus! {

/// An object that can tell the identity of its concrete type. Every type that
/// takes part in casting implements it; `type_identity` returns exactly
/// `identity`, the identity that the cast contracts speak of.
pub trait Castable {
    /// The identity of the object's concrete type.
    spec fn identity(&self) -> TypeIdentity;

    /// Reports the identity of the object's concrete type.
    fn type_identity(&self) -> (r: TypeIdentity)
        ensures
            r == self.identity(),
    ;
}

/// A failed cast of an owning handle: the error, and the handle, handed back
/// untouched.
pub struct CastErrorWith<T> {
    pub error: CastError,
    pub with: T,
}

impl<T> CastErrorWith<T> {
    pub fn new(error: CastError, with: T) -> (r: CastErrorWith<T>)
        ensures
            r.error == error,
            r.with == with,
    {
        CastErrorWith { error, with }
    }
}

/// Casts the handle `from`, to an object of the concrete type `source`, to the
/// interface `target`. On success `rebuild` makes the new handle from `from` and
/// the dispatch table found; on failure `from` comes back with the error.
pub fn trait_cross_cast_with<D: Copy, H, R, F: FnOnce(H, D) -> R>(
    source: &TypeIdentity,
    target: &TypeIdentity,
    registry: &TraitVTableRegistry<D>,
    from: H,
    rebuild: F,
) -> (r: Result<R, CastErrorWith<H>>)
    requires
        registry.wf(),
        forall|d: D| rebuild.requires((from, d)),
    ensures
        match registry.outcome(*source, *target) {
            Ok(d) => r is Ok && rebuild.ensures((from, d), r->Ok_0),
            Err(e) => r is Err && r->Err_0.error == e && r->Err_0.with == from,
        },
{
    match get_vtable(source, target, registry) {
        Ok(vtable) => Ok(rebuild(from, vtable)),
        Err(error) => Err(CastErrorWith::new(error, from)),
    }
}

/// Casts a shared reference to an object to the interface `target`; `rebuild`
/// makes the new reference from `from` and the dispatch table found for the
/// object's concrete type.
pub fn trait_cross_cast_ref<'a, Src: Castable + ?Sized, Tgt: ?Sized, D: Copy, F: FnOnce(&'a Src, D) -> &'a Tgt>(
    from: &'a Src,
    target: &TypeIdentity,
    registry: &TraitVTableRegistry<D>,
    rebuild: F,
) -> (r: Result<&'a Tgt, CastError>)
    requires
        registry.wf(),
        forall|d: D| rebuild.requires((from, d)),
    ensures
        match registry.outcome(from.identity(), *target) {
            Ok(d) => r is Ok && rebuild.ensures((from, d), r->Ok_0),
            Err(e) => r == Err::<&'a Tgt, CastError>(e),
        },
{
    let source = from.type_identity();
    match trait_cross_cast_with(&source, target, registry, from, rebuild) {
        Ok(t) => Ok(t),
        Err(e) => Err(e.error),
    }
}

/// Casts an exclusive reference to an object to the interface `target`: the
/// exclusive borrow passes to `rebuild`, which makes the one new exclusive
/// reference from it and the dispatch table found.
pub fn trait_cross_cast_mut<'a, Src: Castable + ?Sized, R, D: Copy, F: FnOnce(&'a mut Src, D) -> R>(
    from: &'a mut Src,
    target: &TypeIdentity,
    registry: &TraitVTableRegistry<D>,
    rebuild: F,
) -> (r: Result<R, CastError>)
    requires
        registry.wf(),
        forall|d: D| rebuild.requires((from, d)),
    ensures
        match registry.outcome(old(from).identity(), *target) {
            Ok(d) => r is Ok && rebuild.ensures((from, d), r->Ok_0),
            Err(e) => r == Err::<R, CastError>(e),
        },
{
    let source = from.type_identity();
    match trait_cross_cast_with(&source, target, registry, from, rebuild) {
        Ok(t) => Ok(t),
        Err(e) => Err(e.error),
    }
}

/// Casts a `Box` to the interface `target`. On failure the box comes back
/// untouched with the error.
pub fn trait_cross_cast_box<Src: Castable + ?Sized, Tgt: ?Sized, D: Copy, F: FnOnce(Box<Src>, D) -> Box<Tgt>>(
    from: Box<Src>,
    target: &TypeIdentity,
    registry: &TraitVTableRegistry<D>,
    rebuild: F,
) -> (r: Result<Box<Tgt>, CastErrorWith<Box<Src>>>)
    requires
        registry.wf(),
        forall|d: D| rebuild.requires((from, d)),
    ensures
        match registry.outcome((*from).identity(), *target) {
            Ok(d) => r is Ok && rebuild.ensures((from, d), r->Ok_0),
            Err(e) => r is Err && r->Err_0.error == e && r->Err_0.with == from,
        },
{
    let source = from.type_identity();
    trait_cross_cast_with(&source, target, registry, from, rebuild)
}

/// Casts an `Rc` to the interface `target`. On failure the `Rc` comes back
/// untouched with the error.
pub fn trait_cross_cast_rc<Src: Castable + ?Sized, Tgt: ?Sized, D: Copy, F: FnOnce(Rc<Src>, D) -> Rc<Tgt>>(
    from: Rc<Src>,
    target: &TypeIdentity,
    registry: &TraitVTableRegistry<D>,
    rebuild: F,
) -> (r: Result<Rc<Tgt>, CastErrorWith<Rc<Src>>>)
    requires
        registry.wf(),
        forall|d: D| rebuild.requires((from, d)),
    ensures
        match registry.outcome((*from).identity(), *target) {
            Ok(d) => r is Ok && rebuild.ensures((from, d), r->Ok_0),
            Err(e) => r is Err && r->Err_0.error == e && r->Err_0.with == from,
        },
{
    let source = from.type_identity();
    trait_cross_cast_with(&source, target, registry, from, rebuild)
}

/// Casts an `Arc` to the interface `target`. On failure the `Arc` comes back
/// untouched with the error.
pub fn trait_cross_cast_arc<Src: Castable + ?Sized, Tgt: ?Sized, D: Copy, F: FnOnce(Arc<Src>, D) -> Arc<Tgt>>(
    from: Arc<Src>,
    target: &TypeIdentity,
    registry: &TraitVTableRegistry<D>,
    rebuild: F,
) -> (r: Result<Arc<Tgt>, CastErrorWith<Arc<Src>>>)
    requires
        registry.wf(),
        forall|d: D| rebuild.requires((from, d)),
    ensures
        match registry.outcome((*from).identity(), *target) {
            Ok(d) => r is Ok && rebuild.ensures((from, d), r->Ok_0),
            Err(e) => r is Err && r->Err_0.error == e && r->Err_0.with == from,
        },
{
    let source = from.type_identity();
    trait_cross_cast_with(&source, target, registry, from, rebuild)
}

} // verus!
