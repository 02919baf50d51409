//! The association between physics-body handles and game entities.
//!
//! The physics layer speaks of bodies by handle, the game of entities. The
//! registry holds the pairing in both directions, so that a contact event can
//! be read as a meeting of entities and an entity's body can be found again
//! when the entity is destroyed.

use std::collections::HashMap;
use vstd::prelude::*;

verus! {

/// Identifier of a game object. It carries no data of its own.
#[derive(Clone, Copy, Debug, PartialEq, Eq, Structural)]
pub struct Entity {
    pub id: u64,
}

/// Identifier that the physics layer issued for a rigid body: the slot that
/// the body takes in the layer's store, and the generation of that slot, which
/// tells the body apart from those that had the slot before it.
#[derive(Clone, Copy, Debug, PartialEq, Eq, Structural)]
pub struct BodyHandle {
    pub index: u64,
    pub generation: u64,
}

/// Why a registration was turned down.
#[derive(Clone, Copy, Debug, PartialEq, Eq, Structural)]
pub enum RegistryError {
    /// The handle already stands for an entity.
    HandleTaken,
    /// The entity already owns a body under another handle.
    EntityTaken,
}

/// One pairing of a body with the entity that owns it.
#[derive(Clone, Copy, Debug, PartialEq, Eq, Structural)]
pub struct Registration {
    pub handle: BodyHandle,
    pub entity: Entity,
}

/// The handle under which `entity` is registered in `bodies`, if any.
pub open spec fn handle_of_in(bodies: Map<BodyHandle, Entity>, entity: Entity) -> Option<
    BodyHandle,
> {
    if bodies.contains_value(entity) {
        Some(choose|h: BodyHandle| bodies.contains_key(h) && bodies[h] == entity)
    } else {
        None
    }
}

/// What one registration makes of `bodies`: the pairing is added unless the
/// handle or the entity is already bound.
pub open spec fn register_in(
    bodies: Map<BodyHandle, Entity>,
    handle: BodyHandle,
    entity: Entity,
) -> Result<Map<BodyHandle, Entity>, RegistryError> {
    if bodies.contains_key(handle) {
        Err(RegistryError::HandleTaken)
    } else if bodies.contains_value(entity) {
        Err(RegistryError::EntityTaken)
    } else {
        Ok(bodies.insert(handle, entity))
    }
}

/// What a run of registrations makes of `bodies`, and the failure that ended
/// it, if one did: the pairings are added in order up to the first that is
/// turned down; that one and all after it are left out.
pub open spec fn registered_all(bodies: Map<BodyHandle, Entity>, added: Seq<Registration>) -> (
    Map<BodyHandle, Entity>,
    Option<RegistryError>,
)
    decreases added.len(),
{
    if added.len() == 0 {
        (bodies, None)
    } else {
        let (earlier, failure) = registered_all(bodies, added.drop_last());
        if failure is Some {
            (earlier, failure)
        } else {
            match register_in(earlier, added.last().handle, added.last().entity) {
                Ok(grown) => (grown, None),
                Err(e) => (earlier, Some(e)),
            }
        }
    }
}

/// Once a registration of a run has failed, the rest of the run changes
/// nothing.
pub proof fn lemma_failure_ends_run(
    bodies: Map<BodyHandle, Entity>,
    added: Seq<Registration>,
    upto: int,
)
    requires
        0 <= upto <= added.len(),
        registered_all(bodies, added.take(upto)).1 is Some,
    ensures
        registered_all(bodies, added) == registered_all(bodies, added.take(upto)),
    decreases added.len(),
{
    if upto == added.len() {
        assert(added.take(upto) =~= added);
    } else {
        assert(added.drop_last().take(upto) =~= added.take(upto));
        lemma_failure_ends_run(bodies, added.drop_last(), upto);
    }
}

/// What a run of registrations that went through has done: every pairing of
/// the run can be resolved, every handle that was registered before keeps its
/// entity, no other handle has come in, and the registry has grown by exactly
/// the length of the run. A run that failed has at least kept what was there.
pub proof fn lemma_run_registers(bodies: Map<BodyHandle, Entity>, added: Seq<Registration>)
    requires
        bodies.dom().finite(),
    ensures
        ({
            let (grown, failure) = registered_all(bodies, added);
            &&& grown.dom().finite()
            &&& bodies.submap_of(grown)
            &&& grown.len() <= bodies.len() + added.len()
            &&& forall|h: BodyHandle| #[trigger]
                grown.contains_key(h) ==> bodies.contains_key(h) || exists|i: int|
                    0 <= i < added.len() && (#[trigger] added[i]).handle == h
            &&& failure is None ==> {
                &&& grown.len() == bodies.len() + added.len()
                &&& forall|i: int|
                    0 <= i < added.len() ==> grown.get((#[trigger] added[i]).handle) == Some(
                        added[i].entity,
                    )
            }
        }),
    decreases added.len(),
{
    if added.len() > 0 {
        let front = added.drop_last();
        let last = added.last();
        let (earlier, stopped) = registered_all(bodies, front);
        let (grown, failure) = registered_all(bodies, added);
        lemma_run_registers(bodies, front);
        assert forall|h: BodyHandle| #[trigger] grown.contains_key(h) implies bodies.contains_key(h)
            || exists|i: int| 0 <= i < added.len() && (#[trigger] added[i]).handle == h by {
            if earlier.contains_key(h) {
                if !bodies.contains_key(h) {
                    let i = choose|i: int| 0 <= i < front.len() && (#[trigger] front[i]).handle == h;
                    assert(added[i].handle == h);
                }
            } else {
                assert(added[added.len() - 1].handle == h);
            }
        }
        if failure is None {
            assert(stopped is None);
            assert(!earlier.contains_key(last.handle));
            assert(grown == earlier.insert(last.handle, last.entity));
            assert forall|i: int| 0 <= i < added.len() implies grown.get(
                (#[trigger] added[i]).handle,
            ) == Some(added[i].entity) by {
                if i < front.len() {
                    assert(front[i] == added[i]);
                    assert(earlier.get(front[i].handle) == Some(front[i].entity));
                }
            }
        }
    }
}

/// A run of new bodies goes through whenever nothing stands in its way: the
/// handles differ from each other and none of them is registered, and the
/// same holds of the entities.
pub proof fn lemma_fresh_run_goes_through(bodies: Map<BodyHandle, Entity>, added: Seq<Registration>)
    requires
        bodies.dom().finite(),
        forall|i: int| 0 <= i < added.len() ==> !bodies.contains_key((#[trigger] added[i]).handle),
        forall|i: int| 0 <= i < added.len() ==> !bodies.contains_value((#[trigger] added[i]).entity),
        forall|i: int, j: int|
            0 <= i < j < added.len() ==> (#[trigger] added[i]).handle != (#[trigger] added[j]).handle,
        forall|i: int, j: int|
            0 <= i < j < added.len() ==> (#[trigger] added[i]).entity != (#[trigger] added[j]).entity,
    ensures
        registered_all(bodies, added).1 is None,
        registered_all(bodies, added).0.len() == bodies.len() + added.len(),
    decreases added.len(),
{
    if added.len() > 0 {
        let front = added.drop_last();
        let last = added.last();
        assert forall|i: int| 0 <= i < front.len() implies front[i] == added[i] by {}
        lemma_fresh_run_goes_through(bodies, front);
        lemma_run_registers(bodies, front);
        let earlier = registered_all(bodies, front).0;
        assert(last == added[added.len() - 1]);
        if earlier.contains_key(last.handle) {
            let i = choose|i: int| 0 <= i < front.len() && (#[trigger] front[i]).handle == last.handle;
            assert(added[i].handle == last.handle);
            assert(false);
        }
        if earlier.contains_value(last.entity) {
            let k = choose|k: BodyHandle| earlier.contains_key(k) && earlier[k] == last.entity;
            if bodies.contains_key(k) {
                assert(bodies[k] == earlier[k]);
                assert(bodies.contains_value(last.entity));
            } else {
                let i = choose|i: int| 0 <= i < front.len() && (#[trigger] front[i]).handle == k;
                assert(earlier.get(front[i].handle) == Some(front[i].entity));
                assert(added[i].entity == last.entity);
            }
            assert(false);
        }
        lemma_run_registers(bodies, added);
    }
}

/// In an injective map the handle of a registered entity is the one key that
/// leads to it.
pub proof fn lemma_handle_of_unique(
    bodies: Map<BodyHandle, Entity>,
    handle: BodyHandle,
    entity: Entity,
)
    requires
        bodies.is_injective(),
        bodies.contains_key(handle),
        bodies[handle] == entity,
    ensures
        handle_of_in(bodies, entity) == Some(handle),
{
    let h = choose|h: BodyHandle| bodies.contains_key(h) && bodies[h] == entity;
    assert(bodies.contains_key(h) && bodies[h] == entity);
}

/// A registration that goes through can be read back in both directions, keeps
/// every other pairing as it was, and leaves no entity under two handles.
/// Forgetting the handle again gives the registry as it was before.
pub proof fn lemma_register_then_resolve(
    bodies: Map<BodyHandle, Entity>,
    handle: BodyHandle,
    entity: Entity,
)
    requires
        bodies.is_injective(),
        register_in(bodies, handle, entity) is Ok,
    ensures
        ({
            let grown = register_in(bodies, handle, entity)->Ok_0;
            &&& grown.get(handle) == Some(entity)
            &&& handle_of_in(grown, entity) == Some(handle)
            &&& grown.is_injective()
            &&& forall|h: BodyHandle| h != handle ==> grown.get(h) == #[trigger] bodies.get(h)
            &&& grown.remove(handle) == bodies
        }),
{
    let grown = bodies.insert(handle, entity);
    assert forall|x: BodyHandle, y: BodyHandle|
        x != y && grown.dom().contains(x) && grown.dom().contains(y) implies #[trigger] grown[x]
        != #[trigger] grown[y] by {
        if x != handle {
            assert(bodies.dom().contains(x));
        }
        if y != handle {
            assert(bodies.dom().contains(y));
        }
    }
    lemma_handle_of_unique(grown, handle, entity);
    assert(grown.remove(handle) =~= bodies);
}

/// A registration that is turned down names what is in the way: the handle,
/// if it is bound already, else the entity.
pub proof fn lemma_register_failure(
    bodies: Map<BodyHandle, Entity>,
    handle: BodyHandle,
    entity: Entity,
)
    ensures
        register_in(bodies, handle, entity) is Ok <==> !bodies.contains_key(handle)
            && !bodies.contains_value(entity),
        register_in(bodies, handle, entity) == Err::<Map<BodyHandle, Entity>, RegistryError>(
            RegistryError::HandleTaken,
        ) <==> bodies.contains_key(handle),
        register_in(bodies, handle, entity) == Err::<Map<BodyHandle, Entity>, RegistryError>(
            RegistryError::EntityTaken,
        ) <==> !bodies.contains_key(handle) && bodies.contains_value(entity),
{
}

/// Forgetting a handle is idempotent and touches no other pairing.
pub proof fn lemma_unregister_is_idempotent(bodies: Map<BodyHandle, Entity>, handle: BodyHandle)
    ensures
        bodies.remove(handle).get(handle) is None,
        bodies.remove(handle).remove(handle) == bodies.remove(handle),
        forall|h: BodyHandle| h != handle ==> bodies.remove(handle).get(h) == #[trigger] bodies.get(h),
        bodies.is_injective() ==> bodies.remove(handle).is_injective(),
{
    assert(bodies.remove(handle).remove(handle) =~= bodies.remove(handle));
}

/// The number that stands for `handle` in the index: slot and generation
/// side by side.
spec fn key_of(handle: BodyHandle) -> u128 {
    (handle.index * 0x1_0000_0000_0000_0000 + handle.generation) as u128
}

/// The handle that `key` stands for.
spec fn handle_at(key: u128) -> BodyHandle {
    BodyHandle {
        index: (key / 0x1_0000_0000_0000_0000) as u64,
        generation: (key % 0x1_0000_0000_0000_0000) as u64,
    }
}

/// Handles and keys correspond one to one.
proof fn lemma_keys()
    ensures
        forall|h: BodyHandle| #[trigger] handle_at(key_of(h)) == h,
        forall|k: u128| #[trigger] key_of(handle_at(k)) == k,
{
}

/// The number that stands for `handle` in the index.
fn key(handle: BodyHandle) -> (k: u128)
    ensures
        k == key_of(handle),
{
    handle.index as u128 * 0x1_0000_0000_0000_0000 + handle.generation as u128
}

/// Two-way index between body handles and entities.
pub struct Registry {
    by_handle: HashMap<u128, u64>,
    by_entity: HashMap<u64, BodyHandle>,
}

impl Registry {
    /// The two directions agree: each map is the inverse of the other.
    pub closed spec fn wf(&self) -> bool {
        &&& forall|k: u128| #[trigger]
            self.by_handle@.contains_key(k) ==> self.by_entity@.contains_key(self.by_handle@[k])
                && key_of(self.by_entity@[self.by_handle@[k]]) == k
        &&& forall|e: u64| #[trigger]
            self.by_entity@.contains_key(e) ==> self.by_handle@.contains_key(
                key_of(self.by_entity@[e]),
            ) && self.by_handle@[key_of(self.by_entity@[e])] == e
    }

    /// The registry as a map from handle to entity.
    pub closed spec fn view(&self) -> Map<BodyHandle, Entity> {
        Map::new(
            |h: BodyHandle| self.by_handle@.contains_key(key_of(h)),
            |h: BodyHandle| Entity { id: self.by_handle@[key_of(h)] },
        )
    }

    /// No entity is registered under two handles.
    pub proof fn lemma_injective(&self)
        requires
            self.wf(),
        ensures
            self@.is_injective(),
    {
        assert forall|x: BodyHandle, y: BodyHandle|
            x != y && self@.dom().contains(x) && self@.dom().contains(y) implies #[trigger] self@[x]
            != #[trigger] self@[y] by {
            lemma_keys();
            assert(self.by_handle@.contains_key(key_of(x)));
            assert(self.by_handle@.contains_key(key_of(y)));
        }
    }

    /// An empty registry.
    pub fn new() -> (r: Registry)
        ensures
            r.wf(),
            r@ == Map::<BodyHandle, Entity>::empty(),
    {
        let r = Registry { by_handle: HashMap::new(), by_entity: HashMap::new() };
        assert(r@ =~= Map::<BodyHandle, Entity>::empty());
        r
    }

    /// Binds `handle` to `entity`. A handle or an entity that is already bound
    /// is turned down, and the registry stays as it was.
    pub fn register(&mut self, handle: BodyHandle, entity: Entity) -> (r: Result<
        (),
        RegistryError,
    >)
        requires
            old(self).wf(),
        ensures
            final(self).wf(),
            match register_in(old(self)@, handle, entity) {
                Ok(bodies) => r == Ok::<(), RegistryError>(()) && final(self)@ == bodies,
                Err(e) => r == Err::<(), RegistryError>(e) && final(self)@ == old(self)@,
            },
    {
        proof {
            lemma_keys();
        }
        let k = key(handle);
        if self.by_handle.contains_key(&k) {
            return Err(RegistryError::HandleTaken);
        }
        if self.by_entity.contains_key(&entity.id) {
            assert(self@.contains_key(self.by_entity@[entity.id]));
            return Err(RegistryError::EntityTaken);
        }
        self.by_handle.insert(k, entity.id);
        self.by_entity.insert(entity.id, handle);
        assert(self@ =~= old(self)@.insert(handle, entity));
        Ok(())
    }

    /// The entity that owns the body `handle`, or `None` for a handle that is
    /// not (or no longer) registered.
    pub fn resolve(&self, handle: BodyHandle) -> (r: Option<Entity>)
        ensures
            r == self@.get(handle),
    {
        let k = key(handle);
        match self.by_handle.get(&k) {
            Some(id) => Some(Entity { id: *id }),
            None => None,
        }
    }

    /// The handle of the body that `entity` owns, if it is registered.
    pub fn handle_of(&self, entity: Entity) -> (r: Option<BodyHandle>)
        requires
            self.wf(),
        ensures
            r == handle_of_in(self@, entity),
    {
        match self.by_entity.get(&entity.id) {
            Some(found) => {
                let handle = *found;
                proof {
                    self.lemma_injective();
                    lemma_handle_of_unique(self@, handle, entity);
                }
                Some(handle)
            },
            None => {
                assert forall|h: BodyHandle| self@.contains_key(h) implies self@[h] != entity by {
                    assert(self.by_handle@.contains_key(key_of(h)));
                }
                None
            },
        }
    }

    /// Forgets `handle`. Returns the entity it stood for; an unknown handle
    /// changes nothing.
    pub fn unregister(&mut self, handle: BodyHandle) -> (r: Option<Entity>)
        requires
            old(self).wf(),
        ensures
            final(self).wf(),
            r == old(self)@.get(handle),
            final(self)@ == old(self)@.remove(handle),
    {
        proof {
            lemma_keys();
        }
        let k = key(handle);
        match self.by_handle.remove(&k) {
            Some(id) => {
                self.by_entity.remove(&id);
                assert(self@ =~= old(self)@.remove(handle));
                Some(Entity { id })
            },
            None => {
                assert(self@ =~= old(self)@.remove(handle));
                None
            },
        }
    }

    /// Registers a run of new bodies in order. The first pairing that is turned
    /// down ends the run: it is reported, the pairings before it stay
    /// registered, and those after it are not looked at.
    pub fn register_all(&mut self, added: &Vec<Registration>) -> (r: Result<(), RegistryError>)
        requires
            old(self).wf(),
        ensures
            final(self).wf(),
            final(self)@ == registered_all(old(self)@, added@).0,
            r == match registered_all(old(self)@, added@).1 {
                Some(e) => Err::<(), RegistryError>(e),
                None => Ok::<(), RegistryError>(()),
            },
    {
        let mut i: usize = 0;
        while i < added.len()
            invariant
                i <= added.len(),
                self.wf(),
                registered_all(old(self)@, added@.take(i as int)) == (
                    self@,
                    None::<RegistryError>,
                ),
            decreases added.len() - i,
        {
            proof {
                let upto = added@.take(i + 1);
                assert(upto.drop_last() =~= added@.take(i as int));
                assert(upto.last() == added@[i as int]);
            }
            match self.register(added[i].handle, added[i].entity) {
                Ok(()) => {},
                Err(e) => {
                    proof {
                        lemma_failure_ends_run(old(self)@, added@, i + 1);
                    }
                    return Err(e);
                },
            }
            i = i + 1;
        }
        assert(added@.take(i as int) =~= added@);
        Ok(())
    }

    /// A registry holds finitely many bodies.
    pub proof fn lemma_finite(&self)
        ensures
            self@.dom().finite(),
    {
        self.lemma_len();
    }

    /// The number of registered bodies.
    pub fn len(&self) -> (n: usize)
        requires
            self.wf(),
        ensures
            self@.dom().finite(),
            n == self@.len(),
    {
        proof {
            self.lemma_len();
        }
        self.by_handle.len()
    }

    proof fn lemma_len(&self)
        ensures
            self@.dom().finite(),
            self@.len() == self.by_handle@.len(),
    {
        lemma_keys();
        let ids = self.by_handle@.dom();
        let lift = |k: u128| handle_at(k);
        assert(self@.dom() =~= ids.map(lift)) by {
            assert forall|h: BodyHandle| self@.dom().contains(h) implies ids.map(lift).contains(
                h,
            ) by {
                assert(ids.contains(key_of(h)) && lift(key_of(h)) == h);
            }
        }
        assert(vstd::relations::injective_on(lift, ids));
        vstd::set_lib::lemma_map_size(ids, ids.map(lift), lift);
    }
}

} // verus!
