//! The registration table: for each concrete type, the dispatch table of each
//! interface it declares, and the set of interfaces that any type declared.
use crate::identity::{same_type_id, TypeIdentity};
use std::any::TypeId;
use vstd::prelude::*;
use vstd::string::StringExecFns;

verus! {

/// One declaration of a registration: an interface, and its dispatch table, or
/// `None` where the type was checked and does not implement the interface.
pub type Declaration<D> = (TypeId, Option<D>);

/// What a registration holds after `decl` is merged into `m`: an entry that
/// stands, a table or a "not implemented" marker, is never replaced; the
/// declaration is only recorded where nothing stood yet.
pub open spec fn declare<D>(m: Map<TypeId, Option<D>>, decl: Declaration<D>) -> Map<TypeId, Option<D>> {
    if m.contains_key(decl.0) {
        m
    } else {
        m.insert(decl.0, decl.1)
    }
}

/// What a registration holds after the declarations `s` are merged into `m`, in order.
pub open spec fn declare_all<D>(m: Map<TypeId, Option<D>>, s: Seq<Declaration<D>>) -> Map<
    TypeId,
    Option<D>,
>
    decreases s.len(),
{
    if s.len() == 0 {
        m
    } else {
        declare(declare_all(m, s.drop_last()), s.last())
    }
}

/// The registration of `type_id` in `regs`, or an empty one.
pub open spec fn registration_in<D>(regs: Map<TypeId, Map<TypeId, Option<D>>>, type_id: TypeId) -> Map<
    TypeId,
    Option<D>,
> {
    if regs.contains_key(type_id) {
        regs[type_id]
    } else {
        Map::empty()
    }
}

/// The registrations `regs` after the concrete type `type_id` is registered
/// with the declarations `s`.
pub open spec fn registrations_after<D>(
    regs: Map<TypeId, Map<TypeId, Option<D>>>,
    type_id: TypeId,
    s: Seq<Declaration<D>>,
) -> Map<TypeId, Map<TypeId, Option<D>>> {
    regs.insert(type_id, declare_all(registration_in(regs, type_id), s))
}

/// The interfaces that the declarations `s` name.
pub open spec fn declared_ids<D>(s: Seq<Declaration<D>>) -> Set<TypeId> {
    Set::new(|k: TypeId| exists|i: int| 0 <= i < s.len() && s[i].0 == k)
}

/// The declared entries `d` laid under the registration `m`: what `m` holds
/// stands, and `d` only fills its gaps.
spec fn overlay<D>(m: Map<TypeId, Option<D>>, d: Map<TypeId, Option<D>>) -> Map<TypeId, Option<D>> {
    Map::new(
        |k: TypeId| m.contains_key(k) || d.contains_key(k),
        |k: TypeId|
            if m.contains_key(k) {
                m[k]
            } else {
                d[k]
            },
    )
}

/// Laying entries over a registration commutes with merging one more declaration.
proof fn lemma_overlay_declare<D>(m: Map<TypeId, Option<D>>, d: Map<TypeId, Option<D>>, x: Declaration<D>)
    ensures
        overlay(m, declare(d, x)) =~= declare(overlay(m, d), x),
{
}

/// Merging declarations into a registration is the same as laying what they
/// declare on their own under it.
proof fn lemma_declare_all_overlay<D>(m: Map<TypeId, Option<D>>, s: Seq<Declaration<D>>)
    ensures
        declare_all(m, s) =~= overlay(m, declare_all(Map::empty(), s)),
    decreases s.len(),
{
    if s.len() > 0 {
        lemma_declare_all_overlay(m, s.drop_last());
        lemma_overlay_declare(m, declare_all(Map::empty(), s.drop_last()), s.last());
    }
}

/// Merging the same declarations into a registration a second time changes nothing.
proof fn lemma_declare_all_idempotent<D>(m: Map<TypeId, Option<D>>, s: Seq<Declaration<D>>)
    ensures
        declare_all(declare_all(m, s), s) == declare_all(m, s),
{
    lemma_declare_all_overlay(m, s);
    lemma_declare_all_overlay(declare_all(m, s), s);
    let d = declare_all(Map::empty(), s);
    assert(overlay(overlay(m, d), d) =~= overlay(m, d));
}

/// Merging declarations into a registration keeps every entry it held.
proof fn lemma_declare_all_keeps<D>(m: Map<TypeId, Option<D>>, s: Seq<Declaration<D>>, k: TypeId)
    requires
        m.contains_key(k),
    ensures
        declare_all(m, s).contains_key(k),
        declare_all(m, s)[k] == m[k],
{
    lemma_declare_all_overlay(m, s);
}

/// An interface with an entry after merging was either there before or declared.
proof fn lemma_declare_all_keys<D>(m: Map<TypeId, Option<D>>, s: Seq<Declaration<D>>, k: TypeId)
    requires
        declare_all(m, s).contains_key(k),
    ensures
        m.contains_key(k) || declared_ids(s).contains(k),
    decreases s.len(),
{
    if s.len() > 0 && k != s.last().0 {
        lemma_declare_all_keys(m, s.drop_last(), k);
        if declared_ids(s.drop_last()).contains(k) {
            let i = choose|i: int| 0 <= i < s.drop_last().len() && s.drop_last()[i].0 == k;
            assert(s[i].0 == k);
        }
    } else if s.len() > 0 {
        assert(s[s.len() - 1].0 == k);
    }
}

/// Holds the dispatch tables of the interfaces declared for one concrete type.
pub struct TypeVTableMapper<D> {
    keys: Vec<TypeId>,
    vtables: Vec<Option<D>>,
    model: Ghost<Map<TypeId, Option<D>>>,
}

impl<D: Copy> View for TypeVTableMapper<D> {
    type V = Map<TypeId, Option<D>>;

    closed spec fn view(&self) -> Map<TypeId, Option<D>> {
        self.model@
    }
}

impl<D: Copy> TypeVTableMapper<D> {
    /// The stored interfaces are distinct, and the model maps exactly them to their entries.
    pub closed spec fn wf(&self) -> bool {
        &&& self.keys.len() == self.vtables.len()
        &&& forall|i: int, j: int|
            0 <= i < j < self.keys.len() ==> self.keys[i] != self.keys[j]
        &&& forall|i: int|
            0 <= i < self.keys.len() ==> #[trigger] self.model@.contains_key(self.keys[i])
                && self.model@[self.keys[i]] == self.vtables[i]
        &&& forall|k: TypeId|
            #[trigger] self.model@.contains_key(k) ==> exists|i: int|
                0 <= i < self.keys.len() && self.keys[i] == k
    }

    /// An empty registration.
    pub fn new() -> (r: TypeVTableMapper<D>)
        ensures
            r.wf(),
            r@ == Map::<TypeId, Option<D>>::empty(),
    {
        TypeVTableMapper { keys: Vec::new(), vtables: Vec::new(), model: Ghost(Map::empty()) }
    }

    fn position(&self, trait_id: &TypeId) -> (r: Option<usize>)
        requires
            self.wf(),
        ensures
            match r {
                Some(i) => i < self.keys.len() && self.keys[i as int] == *trait_id,
                None => !self@.contains_key(*trait_id),
            },
    {
        let mut i: usize = 0;
        while i < self.keys.len()
            invariant
                self.wf(),
                i <= self.keys.len(),
                forall|j: int| 0 <= j < i ==> self.keys[j] != *trait_id,
            decreases self.keys.len() - i,
        {
            if same_type_id(&self.keys[i], trait_id) {
                return Some(i);
            }
            i = i + 1;
        }
        None
    }

    /// The entry recorded for `trait_id`, if any.
    pub fn entry(&self, trait_id: &TypeId) -> (r: Option<Option<D>>)
        requires
            self.wf(),
        ensures
            r == (if self@.contains_key(*trait_id) {
                Some(self@[*trait_id])
            } else {
                None::<Option<D>>
            }),
    {
        match self.position(trait_id) {
            Some(i) => Some(self.vtables[i]),
            None => None,
        }
    }

    /// Records the dispatch table of `trait_id` for this type, or that the type
    /// does not implement it, unless an entry for `trait_id` stands already.
    pub fn register_vtable(&mut self, trait_id: TypeId, vtable: Option<D>)
        requires
            old(self).wf(),
        ensures
            final(self).wf(),
            final(self)@ == declare(old(self)@, (trait_id, vtable)),
    {
        match self.position(&trait_id) {
            Some(i) => {
                assert(self@ =~= declare(old(self)@, (trait_id, vtable)));
            },
            None => {
                self.keys.push(trait_id);
                self.vtables.push(vtable);
                self.model = Ghost(self.model@.insert(trait_id, vtable));
                assert forall|j: int| 0 <= j < self.keys.len() implies #[trigger] self.model@.contains_key(self.keys[j])
                    && self.model@[self.keys[j]] == self.vtables[j] by {
                    if j < old(self).keys.len() {
                        assert(old(self).model@.contains_key(old(self).keys[j]));
                    }
                }
                assert forall|k: TypeId| #[trigger] self.model@.contains_key(k) implies exists|i: int|
                    0 <= i < self.keys.len() && self.keys[i] == k by {
                    if k == trait_id {
                        assert(self.keys[self.keys.len() - 1] == k);
                    } else {
                        assert(old(self)@.contains_key(k));
                        let i = choose|i: int| 0 <= i < old(self).keys.len() && old(self).keys[i] == k;
                        assert(self.keys[i] == k);
                    }
                }
                assert(self@ =~= declare(old(self)@, (trait_id, vtable)));
            },
        }
    }
}

/// Looks up the dispatch table that casts an object of the concrete type
/// `source` to the interface `target`, or tells why there is none.
pub fn get_vtable<D: Copy>(
    source: &TypeIdentity,
    target: &TypeIdentity,
    type_registry: &TraitVTableRegistry<D>,
) -> (r: Result<D, CastError>)
    requires
        type_registry.wf(),
    ensures
        r == type_registry.outcome(*source, *target),
{
    match type_registry.type_position(&source.id) {
        None => Err(CastError::TypeNotRegistered {
            trait_name: target.name,
            trait_id: target.id,
            concrete_name: source.name,
            concrete_id: source.id,
        }),
        Some(i) => {
            proof {
                assert(type_registry.registrations().contains_key(type_registry.type_ids[i as int]));
            }
            let entry = type_registry.trait_registration_mapper[i].entry(&target.id);
            match entry {
                Some(Some(vtable)) => Ok(vtable),
                _ => {
                    if type_registry.is_trait_registered(&target.id) {
                        Err(
                            CastError::TraitNotImplemented {
                                trait_name: target.name,
                                trait_id: target.id,
                                concrete_name: source.name,
                                concrete_id: source.id,
                            },
                        )
                    } else {
                        Err(CastError::TraitNotRegistered {
            trait_name: target.name,
            trait_id: target.id,
            concrete_name: source.name,
            concrete_id: source.id,
        })
                    }
                },
            }
        },
    }
}

impl<D: Copy> Default for TraitVTableRegistry<D> {
    fn default() -> (r: TraitVTableRegistry<D>)
        ensures
            r.wf(),
            r.registrations() == Map::<TypeId, Map<TypeId, Option<D>>>::empty(),
            r.known_traits() == Set::<TypeId>::empty(),
    {
        TraitVTableRegistry::new()
    }
}

/// A set of interface ids, kept as a list without repeats.
struct TraitSet {
    ids: Vec<TypeId>,
    model: Ghost<Set<TypeId>>,
}

impl TraitSet {
    spec fn wf(&self) -> bool {
        forall|k: TypeId|
            #[trigger] self.model@.contains(k) <==> exists|i: int|
                0 <= i < self.ids.len() && self.ids[i] == k
    }

    fn new() -> (r: TraitSet)
        ensures
            r.wf(),
            r.model@ == Set::<TypeId>::empty(),
    {
        TraitSet { ids: Vec::new(), model: Ghost(Set::empty()) }
    }

    fn contains(&self, id: &TypeId) -> (r: bool)
        requires
            self.wf(),
        ensures
            r == self.model@.contains(*id),
    {
        let mut i: usize = 0;
        while i < self.ids.len()
            invariant
                self.wf(),
                i <= self.ids.len(),
                forall|j: int| 0 <= j < i ==> self.ids[j] != *id,
            decreases self.ids.len() - i,
        {
            if same_type_id(&self.ids[i], id) {
                assert(self.model@.contains(self.ids[i as int]));
                return true;
            }
            i = i + 1;
        }
        false
    }

    fn insert(&mut self, id: TypeId)
        requires
            old(self).wf(),
        ensures
            final(self).wf(),
            final(self).model@ == old(self).model@.insert(id),
    {
        if !self.contains(&id) {
            self.ids.push(id);
        }
        self.model = Ghost(self.model@.insert(id));
        assert forall|k: TypeId| #[trigger] self.model@.contains(k) implies exists|i: int|
            0 <= i < self.ids.len() && self.ids[i] == k by {
            if k == id && !old(self).model@.contains(id) {
                assert(self.ids[self.ids.len() - 1] == k);
            } else {
                let i = choose|i: int| 0 <= i < old(self).ids.len() && old(self).ids[i] == k;
                assert(self.ids[i] == k);
            }
        }
        assert forall|k: TypeId| (exists|i: int| 0 <= i < self.ids.len() && self.ids[i] == k)
            implies #[trigger] self.model@.contains(k) by {
            let i = choose|i: int| 0 <= i < self.ids.len() && self.ids[i] == k;
            if i < old(self).ids.len() {
                assert(old(self).ids[i] == k);
            }
        }
    }
}

/// Collects the declarations of one concrete type: for each interface, its
/// dispatch table, or `None` where the type does not implement it.
pub struct RegistererHelper<D> {
    declarations: Vec<Declaration<D>>,
}

impl<D: Copy> View for RegistererHelper<D> {
    type V = Seq<Declaration<D>>;

    closed spec fn view(&self) -> Seq<Declaration<D>> {
        self.declarations@
    }
}

impl<D: Copy> RegistererHelper<D> {
    /// A helper that has declared nothing yet.
    pub fn new() -> (r: RegistererHelper<D>)
        ensures
            r@ == Seq::<Declaration<D>>::empty(),
    {
        RegistererHelper { declarations: Vec::new() }
    }

    /// Declares the interface `trait_id` with its dispatch table, or as not
    /// implemented where `vtable` is `None`.
    pub fn register_trait_vtables(&mut self, trait_id: TypeId, vtable: Option<D>)
        ensures
            final(self)@ == old(self)@.push((trait_id, vtable)),
    {
        self.declarations.push((trait_id, vtable));
    }
}

/// Why a cast failed. Each error names the concrete type and the target
/// interface it is about, by id and by name.
#[derive(Clone, Copy, Debug)]
pub enum CastError {
    /// The interface is known, but the concrete type does not implement it.
    TraitNotImplemented {
        trait_name: &'static str,
        trait_id: TypeId,
        concrete_name: &'static str,
        concrete_id: TypeId,
    },
    /// No type ever declared the interface.
    TraitNotRegistered {
        trait_name: &'static str,
        trait_id: TypeId,
        concrete_name: &'static str,
        concrete_id: TypeId,
    },
    /// The concrete type was never registered.
    TypeNotRegistered {
        trait_name: &'static str,
        trait_id: TypeId,
        concrete_name: &'static str,
        concrete_id: TypeId,
    },
}

/// The text that describes a cast error.
pub open spec fn error_message(e: CastError) -> Seq<char> {
    match e {
        CastError::TraitNotImplemented { trait_name, concrete_name, .. } => "trait '"@ + trait_name@
            + "' not implemented by the underlying concrete type '"@ + concrete_name@ + "'"@,
        CastError::TraitNotRegistered { trait_name, .. } => "trait '"@ + trait_name@
            + "' not registered"@,
        CastError::TypeNotRegistered { concrete_name, .. } => "type '"@ + concrete_name@
            + "' not registered"@,
    }
}

impl CastError {
    /// Describes the error, by the names of the type and interface it is about.
    pub fn message(&self) -> (r: String)
        ensures
            r@ == error_message(*self),
    {
        match self {
            CastError::TraitNotImplemented { trait_name, concrete_name, .. } => {
                let mut r = String::from_str("trait '");
                r.append(trait_name);
                r.append("' not implemented by the underlying concrete type '");
                r.append(concrete_name);
                r.append("'");
                r
            },
            CastError::TraitNotRegistered { trait_name, .. } => {
                let mut r = String::from_str("trait '");
                r.append(trait_name);
                r.append("' not registered");
                r
            },
            CastError::TypeNotRegistered { concrete_name, .. } => {
                let mut r = String::from_str("type '");
                r.append(concrete_name);
                r.append("' not registered");
                r
            },
        }
    }
}

/// The result of casting an object of the concrete type `source` to the
/// interface `target`, given the registrations `regs` and the interfaces `traits`
/// that some type declared.
pub open spec fn cast_outcome<D>(
    regs: Map<TypeId, Map<TypeId, Option<D>>>,
    traits: Set<TypeId>,
    source: TypeIdentity,
    target: TypeIdentity,
) -> Result<D, CastError> {
    if !regs.contains_key(source.id) {
        Err(CastError::TypeNotRegistered {
            trait_name: target.name,
            trait_id: target.id,
            concrete_name: source.name,
            concrete_id: source.id,
        })
    } else if regs[source.id].contains_key(target.id) && regs[source.id][target.id] is Some {
        Ok(regs[source.id][target.id]->0)
    } else if traits.contains(target.id) {
        Err(
            CastError::TraitNotImplemented {
                trait_name: target.name,
                trait_id: target.id,
                concrete_name: source.name,
                concrete_id: source.id,
            },
        )
    } else {
        Err(CastError::TraitNotRegistered {
            trait_name: target.name,
            trait_id: target.id,
            concrete_name: source.name,
            concrete_id: source.id,
        })
    }
}

/// The registry: for each registered concrete type its registration, and the
/// interfaces that some type declared.
pub struct TraitVTableRegistry<D> {
    type_ids: Vec<TypeId>,
    trait_registration_mapper: Vec<TypeVTableMapper<D>>,
    registered_traits: TraitSet,
    model: Ghost<Map<TypeId, Map<TypeId, Option<D>>>>,
}

impl<D: Copy> TraitVTableRegistry<D> {
    /// The registration of each registered concrete type.
    pub closed spec fn registrations(&self) -> Map<TypeId, Map<TypeId, Option<D>>> {
        self.model@
    }

    /// The interfaces that some type declared.
    pub closed spec fn known_traits(&self) -> Set<TypeId> {
        self.registered_traits.model@
    }

    /// What `register_type` merges new declarations into: the type's
    /// registration, or an empty one.
    pub open spec fn registration_of(&self, type_id: TypeId) -> Map<TypeId, Option<D>> {
        registration_in(self.registrations(), type_id)
    }

    /// The result of casting an object of the concrete type `source` to `target`.
    pub open spec fn outcome(&self, source: TypeIdentity, target: TypeIdentity) -> Result<D, CastError> {
        cast_outcome(self.registrations(), self.known_traits(), source, target)
    }

    pub closed spec fn wf(&self) -> bool {
        &&& self.type_ids.len() == self.trait_registration_mapper.len()
        &&& forall|i: int, j: int|
            0 <= i < j < self.type_ids.len() ==> self.type_ids[i] != self.type_ids[j]
        &&& forall|i: int|
            0 <= i < self.type_ids.len() ==> #[trigger] self.model@.contains_key(self.type_ids[i])
                && self.trait_registration_mapper[i].wf()
                && self.model@[self.type_ids[i]] == self.trait_registration_mapper[i]@
        &&& forall|k: TypeId|
            #[trigger] self.model@.contains_key(k) ==> exists|i: int|
                0 <= i < self.type_ids.len() && self.type_ids[i] == k
        &&& self.registered_traits.wf()
        &&& forall|t: TypeId, k: TypeId|
            self.model@.contains_key(t) && #[trigger] self.model@[t].contains_key(k)
                ==> #[trigger] self.registered_traits.model@.contains(k)
    }

    /// An empty registry.
    pub fn new() -> (r: TraitVTableRegistry<D>)
        ensures
            r.wf(),
            r.registrations() == Map::<TypeId, Map<TypeId, Option<D>>>::empty(),
            r.known_traits() == Set::<TypeId>::empty(),
    {
        TraitVTableRegistry {
            type_ids: Vec::new(),
            trait_registration_mapper: Vec::new(),
            registered_traits: TraitSet::new(),
            model: Ghost(Map::empty()),
        }
    }

    fn type_position(&self, type_id: &TypeId) -> (r: Option<usize>)
        requires
            self.wf(),
        ensures
            match r {
                Some(i) => i < self.type_ids.len() && self.type_ids[i as int] == *type_id,
                None => !self.registrations().contains_key(*type_id),
            },
    {
        let mut i: usize = 0;
        while i < self.type_ids.len()
            invariant
                self.wf(),
                i <= self.type_ids.len(),
                forall|j: int| 0 <= j < i ==> self.type_ids[j] != *type_id,
            decreases self.type_ids.len() - i,
        {
            if same_type_id(&self.type_ids[i], type_id) {
                return Some(i);
            }
            i = i + 1;
        }
        None
    }

    /// Whether some type declared the interface `type_id`.
    pub fn is_trait_registered(&self, type_id: &TypeId) -> (r: bool)
        requires
            self.wf(),
        ensures
            r == self.known_traits().contains(*type_id),
    {
        self.registered_traits.contains(type_id)
    }

    /// Whether the concrete type `type_id` was registered.
    pub fn is_type_registered(&self, type_id: &TypeId) -> (r: bool)
        requires
            self.wf(),
        ensures
            r == self.registrations().contains_key(*type_id),
    {
        self.type_position(type_id).is_some()
    }

    /// Registers the concrete type `type_id` with the declarations of
    /// `registerer`, merged into what the type already held, and marks each
    /// declared interface as known.
    pub fn register_type(&mut self, type_id: TypeId, registerer: &RegistererHelper<D>)
        requires
            old(self).wf(),
        ensures
            final(self).wf(),
            final(self).registrations() == registrations_after(
                old(self).registrations(),
                type_id,
                registerer@,
            ),
            final(self).known_traits() == old(self).known_traits().union(
                declared_ids(registerer@),
            ),
            forall|t: TypeId, k: TypeId|
                #![trigger old(self).registrations()[t][k]]
                old(self).registrations().contains_key(t)
                    && old(self).registrations()[t].contains_key(k)
                    ==> final(self).registrations().contains_key(t)
                    && final(self).registrations()[t].contains_key(k)
                    && final(self).registrations()[t][k] == old(self).registrations()[t][k],
    {
        let ghost base = self.registration_of(type_id);
        let i = match self.type_position(&type_id) {
            Some(i) => i,
            None => {
                self.type_ids.push(type_id);
                self.trait_registration_mapper.push(TypeVTableMapper::new());
                self.type_ids.len() - 1
            },
        };
        proof {
            assert forall|a: int, b: int| 0 <= a < b < self.type_ids.len() implies self.type_ids[a]
                != self.type_ids[b] by {
                if b == i && i == old(self).type_ids.len() {
                    assert(old(self).model@.contains_key(old(self).type_ids[a]));
                }
            }
        }
        let ghost ids0 = self.type_ids@;
        let ghost mappers0 = self.trait_registration_mapper@;
        let ghost n0 = old(self).type_ids.len();
        assert(ids0.len() == mappers0.len());
        assert(ids0[i as int] == type_id);
        assert(mappers0[i as int].wf() && mappers0[i as int]@ == base) by {
            if i < n0 {
                assert(old(self).model@.contains_key(old(self).type_ids[i as int]));
            } else {
                assert(mappers0[i as int]@ =~= base);
            }
        }
        assert(forall|k: int| 0 <= k < n0 ==> ids0[k] == old(self).type_ids[k]
            && mappers0[k] == old(self).trait_registration_mapper[k]);
        assert(n0 <= ids0.len() <= n0 + 1);
        assert(i >= n0 ==> ids0.len() == n0 + 1 && i == n0);
        let ghost traits0 = old(self).registered_traits.model@;
        let decls = &registerer.declarations;
        assert(decls@.take(0) =~= Seq::<Declaration<D>>::empty());
        assert(declared_ids(decls@.take(0)) =~= Set::<TypeId>::empty());
        assert(traits0.union(Set::<TypeId>::empty()) =~= traits0);
        let mut j: usize = 0;
        while j < decls.len()
            invariant
                j <= decls.len(),
                i < ids0.len(),
                ids0.len() == mappers0.len(),
                self.type_ids@ == ids0,
                self.trait_registration_mapper@.len() == mappers0.len(),
                forall|k: int|
                    0 <= k < mappers0.len() && k != i ==> self.trait_registration_mapper[k]
                        == mappers0[k],
                self.trait_registration_mapper[i as int].wf(),
                self.trait_registration_mapper[i as int]@ == declare_all(base, decls@.take(j as int)),
                self.registered_traits.wf(),
                self.registered_traits.model@ == traits0.union(declared_ids(decls@.take(j as int))),
                self.model == old(self).model,
            decreases decls.len() - j,
        {
            let decl = decls[j];
            self.trait_registration_mapper[i].register_vtable(decl.0, decl.1);
            self.registered_traits.insert(decl.0);
            assert(decls@.take(j + 1).drop_last() =~= decls@.take(j as int));
            assert(declared_ids(decls@.take(j + 1)) =~= declared_ids(decls@.take(j as int)).insert(decl.0)) by {
                assert(decls@.take(j + 1)[j as int] == decl);
            }
            assert(traits0.union(declared_ids(decls@.take(j + 1))) =~= traits0.union(declared_ids(decls@.take(j as int))).insert(decl.0));
            j = j + 1;
        }
        assert(decls@.take(decls.len() as int) =~= decls@);
        self.model = Ghost(self.model@.insert(type_id, self.trait_registration_mapper[i as int]@));
        proof {
            let n = self.type_ids.len();
            assert forall|k: int| 0 <= k < n implies #[trigger] self.model@.contains_key(self.type_ids[k])
                && self.trait_registration_mapper[k].wf()
                && self.model@[self.type_ids[k]] == self.trait_registration_mapper[k]@ by {
                if k != i {
                    assert(old(self).model@.contains_key(old(self).type_ids[k]));
                    if k < i {
                        assert(ids0[k] != ids0[i as int]);
                    } else {
                        assert(ids0[i as int] != ids0[k]);
                    }
                }
            }
            assert forall|k: TypeId| #[trigger] self.model@.contains_key(k) implies exists|x: int|
                0 <= x < n && self.type_ids[x] == k by {
                if k != type_id {
                    let x = choose|x: int| 0 <= x < old(self).type_ids.len() && old(self).type_ids[x] == k;
                    assert(self.type_ids[x] == k);
                }
            }
            assert forall|t: TypeId, k: TypeId|
                #![trigger old(self).model@[t][k]]
                old(self).model@.contains_key(t) && old(self).model@[t].contains_key(k)
                    implies self.model@.contains_key(t) && self.model@[t].contains_key(k)
                    && self.model@[t][k] == old(self).model@[t][k] by {
                if t == type_id {
                    lemma_declare_all_keeps(base, decls@, k);
                }
            }
            assert forall|t: TypeId, k: TypeId|
                self.model@.contains_key(t) && #[trigger] self.model@[t].contains_key(k)
                    implies #[trigger] self.registered_traits.model@.contains(k) by {
                if t == type_id {
                    lemma_declare_all_keys(base, decls@, k);
                }
            }
        }
    }
}

/// Registering a type a second time with the same declarations leaves the
/// registrations and the known interfaces as the first registration left them.
pub proof fn lemma_register_type_idempotent<D>(
    regs: Map<TypeId, Map<TypeId, Option<D>>>,
    traits: Set<TypeId>,
    type_id: TypeId,
    s: Seq<Declaration<D>>,
)
    ensures
        registrations_after(registrations_after(regs, type_id, s), type_id, s)
            == registrations_after(regs, type_id, s),
        traits.union(declared_ids(s)).union(declared_ids(s)) == traits.union(declared_ids(s)),
{
    lemma_declare_all_idempotent(registration_in(regs, type_id), s);
    assert(registrations_after(registrations_after(regs, type_id, s), type_id, s)
        =~= registrations_after(regs, type_id, s));
    assert(traits.union(declared_ids(s)).union(declared_ids(s)) =~= traits.union(declared_ids(s)));
}

/// A cast of an object of a type whose registration holds a dispatch table for
/// the target interface succeeds with exactly that table.
pub proof fn lemma_registered_pair_casts<D: Copy>(
    registry: &TraitVTableRegistry<D>,
    source: TypeIdentity,
    target: TypeIdentity,
    vtable: D,
)
    requires
        registry.registrations().contains_key(source.id),
        registry.registrations()[source.id].contains_key(target.id),
        registry.registrations()[source.id][target.id] == Some(vtable),
    ensures
        registry.outcome(source, target) == Ok::<D, CastError>(vtable),
{
}

/// The lookups of a round trip: for an object of a type with tables for both
/// `a` and `b`, the lookup for `b` finds the table of `b`, and the lookup back
/// to `a`, made for the same concrete type, finds the table of `a`. The cast
/// functions rebuild each handle from the table found, so the object ends up
/// under `a` with the table it started with.
pub proof fn lemma_round_trip<D: Copy>(
    registry: &TraitVTableRegistry<D>,
    source: TypeIdentity,
    a: TypeIdentity,
    b: TypeIdentity,
    table_a: D,
    table_b: D,
)
    requires
        registry.registrations().contains_key(source.id),
        registry.registrations()[source.id].contains_key(a.id),
        registry.registrations()[source.id][a.id] == Some(table_a),
        registry.registrations()[source.id].contains_key(b.id),
        registry.registrations()[source.id][b.id] == Some(table_b),
    ensures
        registry.outcome(source, b) == Ok::<D, CastError>(table_b),
        registry.outcome(source, a) == Ok::<D, CastError>(table_a),
{
}

/// A cast of an object of a type that was never registered fails with
/// `TypeNotRegistered`, naming that type.
pub proof fn lemma_unregistered_type<D: Copy>(
    registry: &TraitVTableRegistry<D>,
    source: TypeIdentity,
    target: TypeIdentity,
)
    requires
        !registry.registrations().contains_key(source.id),
    ensures
        registry.outcome(source, target) == Err::<D, CastError>(
            CastError::TypeNotRegistered {
            trait_name: target.name,
            trait_id: target.id,
            concrete_name: source.name,
            concrete_id: source.id,
        },
        ),
{
}

/// A cast of an object of a registered type to an interface that the type did
/// not declare with a table, while some type declared it, fails with
/// `TraitNotImplemented`, naming both.
pub proof fn lemma_trait_not_implemented<D: Copy>(
    registry: &TraitVTableRegistry<D>,
    source: TypeIdentity,
    target: TypeIdentity,
)
    requires
        registry.registrations().contains_key(source.id),
        !registry.registrations()[source.id].contains_key(target.id)
            || registry.registrations()[source.id][target.id] is None,
        registry.known_traits().contains(target.id),
    ensures
        registry.outcome(source, target) == Err::<D, CastError>(
            CastError::TraitNotImplemented {
                trait_name: target.name,
                trait_id: target.id,
                concrete_name: source.name,
                concrete_id: source.id,
            },
        ),
{
}

/// A cast of an object of a registered type to an interface that no type ever
/// declared fails with `TraitNotRegistered`, naming the interface.
pub proof fn lemma_trait_not_registered<D: Copy>(
    registry: &TraitVTableRegistry<D>,
    source: TypeIdentity,
    target: TypeIdentity,
)
    requires
        registry.wf(),
        registry.registrations().contains_key(source.id),
        !registry.known_traits().contains(target.id),
    ensures
        registry.outcome(source, target) == Err::<D, CastError>(
            CastError::TraitNotRegistered {
            trait_name: target.name,
            trait_id: target.id,
            concrete_name: source.name,
            concrete_id: source.id,
        },
        ),
{
    if registry.registrations()[source.id].contains_key(target.id) {
        assert(registry.registered_traits.model@.contains(target.id));
    }
}

} // verus!
