//! The response to each contact: the ball bounces, a struck brick is destroyed
//! and scored.

use vstd::prelude::*;
use crate::contact::{classified_all, classify_all, Contact, ContactEvent, ContactKind};
use crate::hud::{bumped, Scoreboard};
use crate::registry::{handle_of_in, BodyHandle, Entity, Registry};
use crate::units::Velocity;
use crate::world::{TagSet, World};

verus! {

/// A body that the physics layer has to remove, with the entity that owned
/// it and has to be despawned.
#[derive(Clone, Copy, Debug, PartialEq, Eq, Structural)]
pub struct Removal {
    pub handle: BodyHandle,
    pub entity: Entity,
}

/// Everything that a contact can change, as mathematical values: the
/// registered bodies, the tags of the live entities, the score, the ball's
/// velocity and the removals ordered so far.
pub struct Scene {
    pub bodies: Map<BodyHandle, Entity>,
    pub tags: Map<Entity, TagSet>,
    pub score: u64,
    pub velocity: Velocity,
    pub removed: Seq<Removal>,
}

impl Scene {
    /// The scene after the response to one contact.
    ///
    /// A brick that is still registered is destroyed: the ball bounces back
    /// along `z`, the score grows by one, the brick leaves the registry and the
    /// world, and its removal is ordered. A brick that is gone already changes
    /// nothing. The paddle and the top wall turn the ball back along `z`, a
    /// side wall along `x`.
    pub open spec fn after(self, contact: Contact) -> Scene {
        match contact.kind {
            ContactKind::BallBrick => match handle_of_in(self.bodies, contact.other) {
                Some(handle) => Scene {
                    bodies: self.bodies.remove(handle),
                    tags: self.tags.remove(contact.other),
                    score: bumped(self.score),
                    velocity: self.velocity.flip_z(),
                    removed: self.removed.push(Removal { handle, entity: contact.other }),
                },
                None => self,
            },
            ContactKind::BallPaddle => Scene { velocity: self.velocity.flip_z(), ..self },
            ContactKind::BallTopWall => Scene { velocity: self.velocity.flip_z(), ..self },
            ContactKind::BallSideWall => Scene { velocity: self.velocity.flip_x(), ..self },
        }
    }

    /// The scene after the responses to `contacts`, taken in order.
    pub open spec fn after_all(self, contacts: Seq<Contact>) -> Scene
        decreases contacts.len(),
    {
        if contacts.len() == 0 {
            self
        } else {
            self.after_all(contacts.drop_last()).after(contacts.last())
        }
    }
}

/// The scene that the given parts of the game make up.
pub open spec fn scene_of(
    registry: &Registry,
    world: &World,
    scoreboard: &Scoreboard,
    velocity: Velocity,
    removed: Seq<Removal>,
) -> Scene {
    Scene { bodies: registry@, tags: world@, score: scoreboard.score, velocity, removed }
}

/// Applies the response to one contact. `velocity` is the ball's; a removal
/// that the response calls for is added at the end of `removed`.
pub fn resolve(
    contact: Contact,
    registry: &mut Registry,
    world: &mut World,
    scoreboard: &mut Scoreboard,
    velocity: &mut Velocity,
    removed: &mut Vec<Removal>,
)
    requires
        old(registry).wf(),
    ensures
        final(registry).wf(),
        scene_of(
            final(registry),
            final(world),
            final(scoreboard),
            *final(velocity),
            final(removed)@,
        ) == scene_of(
            old(registry),
            old(world),
            old(scoreboard),
            *old(velocity),
            old(removed)@,
        ).after(contact),
{
    match contact.kind {
        ContactKind::BallBrick => {
            match registry.handle_of(contact.other) {
                Some(handle) => {
                    scoreboard.increment();
                    *velocity = velocity.flip_z();
                    registry.unregister(handle);
                    world.despawn(contact.other);
                    removed.push(Removal { handle, entity: contact.other });
                },
                None => {},
            }
        },
        ContactKind::BallPaddle => {
            *velocity = velocity.flip_z();
        },
        ContactKind::BallTopWall => {
            *velocity = velocity.flip_z();
        },
        ContactKind::BallSideWall => {
            *velocity = velocity.flip_x();
        },
    }
}

/// Applies the responses to `contacts` in order.
pub fn resolve_all(
    contacts: &Vec<Contact>,
    registry: &mut Registry,
    world: &mut World,
    scoreboard: &mut Scoreboard,
    velocity: &mut Velocity,
    removed: &mut Vec<Removal>,
)
    requires
        old(registry).wf(),
    ensures
        final(registry).wf(),
        scene_of(
            final(registry),
            final(world),
            final(scoreboard),
            *final(velocity),
            final(removed)@,
        ) == scene_of(
            old(registry),
            old(world),
            old(scoreboard),
            *old(velocity),
            old(removed)@,
        ).after_all(contacts@),
{
    let ghost start = scene_of(
        old(registry),
        old(world),
        old(scoreboard),
        *old(velocity),
        old(removed)@,
    );
    let mut i: usize = 0;
    while i < contacts.len()
        invariant
            i <= contacts.len(),
            registry.wf(),
            scene_of(registry, world, scoreboard, *velocity, removed@) == start.after_all(
                contacts@.take(i as int),
            ),
        decreases contacts.len() - i,
    {
        proof {
            let upto = contacts@.take(i + 1);
            assert(upto.drop_last() =~= contacts@.take(i as int));
            assert(upto.last() == contacts@[i as int]);
        }
        resolve(contacts[i], registry, world, scoreboard, velocity, removed);
        i = i + 1;
    }
    assert(contacts@.take(i as int) =~= contacts@);
}

/// One tick of contact handling: reads the tick's events against the game as
/// it stands, then applies the response to each contact found, in the order of
/// the events. Returns the removals that the physics layer and the world have
/// to carry out, in the order in which the bricks were struck.
pub fn contact_system(
    registry: &mut Registry,
    world: &mut World,
    scoreboard: &mut Scoreboard,
    events: &Vec<ContactEvent>,
    velocity: &mut Velocity,
) -> (removed: Vec<Removal>)
    requires
        old(registry).wf(),
    ensures
        final(registry).wf(),
        scene_of(final(registry), final(world), final(scoreboard), *final(velocity), removed@)
            == scene_of(
            old(registry),
            old(world),
            old(scoreboard),
            *old(velocity),
            Seq::empty(),
        ).after_all(classified_all(old(registry)@, old(world)@, events@)),
{
    let contacts = classify_all(registry, world, events);
    let mut removed: Vec<Removal> = Vec::new();
    resolve_all(&contacts, registry, world, scoreboard, velocity, &mut removed);
    removed
}

/// A ball that strikes a registered brick scores one point and destroys the
/// brick: the score grows by exactly one, the ball turns back along `z`, the
/// brick's handle and the brick itself are gone from the registry, and the
/// brick's removal is ordered. The same contact processed again, now stale,
/// changes nothing.
pub proof fn lemma_brick_contact_scores_once(scene: Scene, contact: Contact)
    requires
        scene.bodies.is_injective(),
        contact.kind == ContactKind::BallBrick,
        scene.bodies.contains_value(contact.other),
        scene.score < u64::MAX,
    ensures
        scene.after(contact).score == scene.score + 1,
        scene.after(contact).velocity == scene.velocity.flip_z(),
        handle_of_in(scene.bodies, contact.other) matches Some(handle)
            && scene.bodies.contains_key(handle) && scene.bodies[handle] == contact.other
            && !scene.after(contact).bodies.contains_key(handle)
            && scene.after(contact).removed == scene.removed.push(
            Removal { handle, entity: contact.other },
        ),
        !scene.after(contact).bodies.contains_value(contact.other),
        !scene.after(contact).tags.contains_key(contact.other),
        scene.after(contact).after(contact) == scene.after(contact),
{
    let handle = handle_of_in(scene.bodies, contact.other)->Some_0;
    let next = scene.after(contact);
    assert forall|h: BodyHandle| next.bodies.contains_key(h) implies next.bodies[h]
        != contact.other by {
        assert(scene.bodies.contains_key(h) && h != handle);
    }
}

/// A brick contact whose brick is not registered, because it was destroyed
/// earlier or never had a body, changes nothing.
pub proof fn lemma_stale_brick_contact_changes_nothing(scene: Scene, contact: Contact)
    requires
        contact.kind == ContactKind::BallBrick,
        !scene.bodies.contains_value(contact.other),
    ensures
        scene.after(contact) == scene,
{
}

/// The response to a side wall, applied twice in a row, gives back the scene
/// as it was: the `x` component returns to its sign and magnitude.
pub proof fn lemma_side_wall_twice_restores(scene: Scene, contact: Contact)
    requires
        contact.kind == ContactKind::BallSideWall,
        scene.velocity.x != i64::MIN,
    ensures
        scene.after(contact).velocity.x == -scene.velocity.x,
        scene.after(contact).after(contact) == scene,
{
}

/// The responses to the paddle and to the top wall are involutions too, along
/// `z`.
pub proof fn lemma_z_bounce_twice_restores(scene: Scene, contact: Contact)
    requires
        contact.kind == ContactKind::BallPaddle || contact.kind == ContactKind::BallTopWall,
        scene.velocity.z != i64::MIN,
    ensures
        scene.after(contact).velocity.z == -scene.velocity.z,
        scene.after(contact).after(contact) == scene,
{
}

/// Two contacts of one tick that destroy nothing can be taken in either
/// order: the bounces along `x` and along `z` do not depend on each other.
pub proof fn lemma_bounces_commute(scene: Scene, first: Contact, second: Contact)
    requires
        first.kind != ContactKind::BallBrick,
        second.kind != ContactKind::BallBrick,
    ensures
        scene.after(first).after(second) == scene.after(second).after(first),
{
}

/// Only a brick scores: any other contact leaves the score, the registry,
/// the world and the removals as they were, and no contact lowers the score.
pub proof fn lemma_only_bricks_score(scene: Scene, contact: Contact)
    ensures
        scene.after(contact).score >= scene.score,
        contact.kind != ContactKind::BallBrick ==> {
            &&& scene.after(contact).score == scene.score
            &&& scene.after(contact).bodies == scene.bodies
            &&& scene.after(contact).tags == scene.tags
            &&& scene.after(contact).removed == scene.removed
        },
{
}

/// A brick leaves the registry and the world together: if every registered
/// entity is alive before a contact, every registered entity is alive after
/// it.
pub proof fn lemma_registered_stay_alive(scene: Scene, contact: Contact)
    requires
        scene.bodies.is_injective(),
        forall|h: BodyHandle| #[trigger]
            scene.bodies.contains_key(h) ==> scene.tags.contains_key(scene.bodies[h]),
    ensures
        scene.after(contact).bodies.is_injective(),
        forall|h: BodyHandle| #[trigger]
            scene.after(contact).bodies.contains_key(h) ==> scene.after(contact).tags.contains_key(
                scene.after(contact).bodies[h],
            ),
{
    let next = scene.after(contact);
    if contact.kind == ContactKind::BallBrick && scene.bodies.contains_value(contact.other) {
        let handle = handle_of_in(scene.bodies, contact.other)->Some_0;
        assert forall|h: BodyHandle| #[trigger] next.bodies.contains_key(h) implies next.tags.contains_key(
            next.bodies[h],
        ) by {
            assert(scene.bodies.contains_key(h) && h != handle);
        }
    }
}

/// The responses are applied one after the other: two runs of contacts in a
/// row come to the same as the one run of both.
pub proof fn lemma_after_all_in_order(scene: Scene, first: Seq<Contact>, second: Seq<Contact>)
    ensures
        scene.after_all(first + second) == scene.after_all(first).after_all(second),
    decreases second.len(),
{
    if second.len() == 0 {
        assert(first + second =~= first);
    } else {
        let both = first + second;
        assert(both.drop_last() =~= first + second.drop_last());
        assert(both.last() == second.last());
        lemma_after_all_in_order(scene, first, second.drop_last());
    }
}

/// No run of contacts lowers the score.
pub proof fn lemma_score_never_falls(scene: Scene, contacts: Seq<Contact>)
    ensures
        scene.after_all(contacts).score >= scene.score,
    decreases contacts.len(),
{
    if contacts.len() > 0 {
        lemma_score_never_falls(scene, contacts.drop_last());
    }
}

/// What a run of contacts keeps and what it accounts for.
///
/// The registry stays injective and only loses entries. The removals
/// ordered before stay at the front. Each new removal names a pairing that was
/// registered at the start and is gone at the end, and no body is removed
/// twice. The score grows by exactly the number of new removals, one point
/// for each brick, as long as the count does not reach the greatest `u64`.
pub proof fn lemma_run_accounts_for_bricks(scene: Scene, contacts: Seq<Contact>)
    requires
        scene.bodies.is_injective(),
    ensures
        ({
            let end = scene.after_all(contacts);
            let before = scene.removed.len() as int;
            &&& end.bodies.is_injective()
            &&& end.bodies.submap_of(scene.bodies)
            &&& end.tags.submap_of(scene.tags)
            &&& before <= end.removed.len() <= before + contacts.len()
            &&& end.removed.take(before) == scene.removed
            &&& forall|i: int|
                before <= i < end.removed.len() ==> {
                    let r = #[trigger] end.removed[i];
                    &&& scene.bodies.contains_key(r.handle)
                    &&& scene.bodies[r.handle] == r.entity
                    &&& !end.bodies.contains_key(r.handle)
                }
            &&& forall|i: int, j: int|
                before <= i < j < end.removed.len() ==> (#[trigger] end.removed[i]).handle != (
                #[trigger] end.removed[j]).handle
            &&& end.score >= scene.score
            &&& scene.score + (end.removed.len() - before) <= u64::MAX ==> end.score == scene.score
                + (end.removed.len() - before)
        }),
    decreases contacts.len(),
{
    let before = scene.removed.len() as int;
    if contacts.len() == 0 {
        assert(scene.removed.take(before) =~= scene.removed);
    } else {
        let mid = scene.after_all(contacts.drop_last());
        let last = contacts.last();
        let end = mid.after(last);
        lemma_run_accounts_for_bricks(scene, contacts.drop_last());
        assert(end == scene.after_all(contacts));
        if last.kind == ContactKind::BallBrick && mid.bodies.contains_value(last.other) {
            let handle = handle_of_in(mid.bodies, last.other)->Some_0;
            assert(mid.bodies.contains_key(handle) && mid.bodies[handle] == last.other);
            assert(end.removed == mid.removed.push(Removal { handle, entity: last.other }));
            assert(end.removed.take(before) =~= mid.removed.take(before));
            assert forall|i: int| before <= i < end.removed.len() implies {
                let r = #[trigger] end.removed[i];
                &&& scene.bodies.contains_key(r.handle)
                &&& scene.bodies[r.handle] == r.entity
                &&& !end.bodies.contains_key(r.handle)
            } by {
                if i < mid.removed.len() {
                    assert(end.removed[i] == mid.removed[i]);
                }
            }
            assert forall|i: int, j: int| before <= i < j < end.removed.len() implies (
            #[trigger] end.removed[i]).handle != (#[trigger] end.removed[j]).handle by {
                assert(end.removed[i] == mid.removed[i]);
                if j < mid.removed.len() {
                    assert(end.removed[j] == mid.removed[j]);
                }
            }
        } else {
            assert(end.bodies == mid.bodies);
            assert(end.removed == mid.removed);
        }
    }
}

} // verus!
