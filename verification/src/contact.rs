//! Reading raw contact events as meetings of the ball with an obstacle.

use vstd::prelude::*;
use crate::registry::{BodyHandle, Entity, Registry};
use crate::world::{tags_in, TagSet, World};

verus! {

/// A contact event as the physics layer reports it, naming two bodies.
#[derive(Clone, Copy, Debug, PartialEq, Eq, Structural)]
pub enum ContactEvent {
    /// The two bodies began to touch.
    Started(BodyHandle, BodyHandle),
    /// The two bodies ceased to touch.
    Stopped(BodyHandle, BodyHandle),
}

/// The kinds of contact that the game responds to.
#[derive(Clone, Copy, Debug, PartialEq, Eq, Structural)]
pub enum ContactKind {
    BallBrick,
    BallSideWall,
    BallTopWall,
    BallPaddle,
}

/// A contact between the ball and an obstacle. It lives for one tick.
#[derive(Clone, Copy, Debug, PartialEq, Eq, Structural)]
pub struct Contact {
    pub kind: ContactKind,
    pub ball: Entity,
    pub other: Entity,
}

/// The kind of contact that a ball makes with an entity that carries `other`.
/// Where several tags are present the first of brick, wall, top wall and
/// paddle decides; an entity with none of them is no obstacle.
pub open spec fn kind_against(other: TagSet) -> Option<ContactKind> {
    if other.brick {
        Some(ContactKind::BallBrick)
    } else if other.wall {
        Some(ContactKind::BallSideWall)
    } else if other.top_wall {
        Some(ContactKind::BallTopWall)
    } else if other.paddle {
        Some(ContactKind::BallPaddle)
    } else {
        None
    }
}

/// The contact, if any, between two entities with the given tags: exactly one
/// of them must be a ball and the other an obstacle.
pub open spec fn contact_between(first: Entity, first_tags: TagSet, second: Entity, second_tags: TagSet) -> Option<
    Contact,
> {
    if first_tags.ball && !second_tags.ball {
        match kind_against(second_tags) {
            Some(kind) => Some(Contact { kind, ball: first, other: second }),
            None => None,
        }
    } else if second_tags.ball && !first_tags.ball {
        match kind_against(first_tags) {
            Some(kind) => Some(Contact { kind, ball: second, other: first }),
            None => None,
        }
    } else {
        None
    }
}

/// What `event` means in a game with the registered `bodies` and the live
/// `tags`. Only the start of a contact between two registered bodies counts.
pub open spec fn classified(
    bodies: Map<BodyHandle, Entity>,
    tags: Map<Entity, TagSet>,
    event: ContactEvent,
) -> Option<Contact> {
    match event {
        ContactEvent::Started(h1, h2) => {
            if bodies.contains_key(h1) && bodies.contains_key(h2) {
                contact_between(
                    bodies[h1],
                    tags_in(tags, bodies[h1]),
                    bodies[h2],
                    tags_in(tags, bodies[h2]),
                )
            } else {
                None
            }
        },
        ContactEvent::Stopped(_, _) => None,
    }
}

/// The contacts that `events` hold, in the order of the events.
pub open spec fn classified_all(
    bodies: Map<BodyHandle, Entity>,
    tags: Map<Entity, TagSet>,
    events: Seq<ContactEvent>,
) -> Seq<Contact>
    decreases events.len(),
{
    if events.len() == 0 {
        Seq::empty()
    } else {
        let earlier = classified_all(bodies, tags, events.drop_last());
        match classified(bodies, tags, events.last()) {
            Some(contact) => earlier.push(contact),
            None => earlier,
        }
    }
}

/// The kind of contact that a ball makes with an entity that carries `other`.
pub fn obstacle_kind(other: TagSet) -> (r: Option<ContactKind>)
    ensures
        r == kind_against(other),
{
    if other.brick {
        Some(ContactKind::BallBrick)
    } else if other.wall {
        Some(ContactKind::BallSideWall)
    } else if other.top_wall {
        Some(ContactKind::BallTopWall)
    } else if other.paddle {
        Some(ContactKind::BallPaddle)
    } else {
        None
    }
}

/// Reads one event. An event that names an unknown body, that is not the start
/// of a contact, or that does not pair one ball with one obstacle gives `None`.
pub fn classify(registry: &Registry, world: &World, event: ContactEvent) -> (r: Option<Contact>)
    ensures
        r == classified(registry@, world@, event),
{
    match event {
        ContactEvent::Started(h1, h2) => {
            let first = match registry.resolve(h1) {
                Some(e) => e,
                None => {
                    return None;
                },
            };
            let second = match registry.resolve(h2) {
                Some(e) => e,
                None => {
                    return None;
                },
            };
            let first_tags = world.tags_of(first);
            let second_tags = world.tags_of(second);
            if first_tags.ball && !second_tags.ball {
                match obstacle_kind(second_tags) {
                    Some(kind) => Some(Contact { kind, ball: first, other: second }),
                    None => None,
                }
            } else if second_tags.ball && !first_tags.ball {
                match obstacle_kind(first_tags) {
                    Some(kind) => Some(Contact { kind, ball: second, other: first }),
                    None => None,
                }
            } else {
                None
            }
        },
        ContactEvent::Stopped(_, _) => None,
    }
}

/// Reads a tick's events in the order of their arrival and returns the
/// contacts among them in that order.
pub fn classify_all(registry: &Registry, world: &World, events: &Vec<ContactEvent>) -> (r: Vec<
    Contact,
>)
    ensures
        r@ == classified_all(registry@, world@, events@),
{
    let mut contacts: Vec<Contact> = Vec::new();
    let mut i: usize = 0;
    while i < events.len()
        invariant
            i <= events.len(),
            contacts@ == classified_all(registry@, world@, events@.take(i as int)),
        decreases events.len() - i,
    {
        let found = classify(registry, world, events[i]);
        proof {
            let upto = events@.take(i + 1);
            assert(upto.drop_last() =~= events@.take(i as int));
            assert(upto.last() == events@[i as int]);
        }
        match found {
            Some(contact) => {
                contacts.push(contact);
            },
            None => {},
        }
        i = i + 1;
    }
    assert(events@.take(i as int) =~= events@);
    contacts
}

/// A contact always pairs one ball with one obstacle: the entity named first
/// carries the ball tag, the other does not, the kind is the one that the
/// other's tags call for, and both stand behind the handles of the event.
pub proof fn lemma_contact_pairs_ball_with_obstacle(
    bodies: Map<BodyHandle, Entity>,
    tags: Map<Entity, TagSet>,
    event: ContactEvent,
)
    ensures
        match classified(bodies, tags, event) {
            Some(c) => {
                &&& tags_in(tags, c.ball).ball
                &&& !tags_in(tags, c.other).ball
                &&& kind_against(tags_in(tags, c.other)) == Some(c.kind)
                &&& event matches ContactEvent::Started(h1, h2)
                &&& bodies.contains_key(h1)
                &&& bodies.contains_key(h2)
                &&& (bodies[h1] == c.ball && bodies[h2] == c.other || bodies[h1] == c.other
                    && bodies[h2] == c.ball)
            },
            None => true,
        },
{
}

/// Every contact of a tick pairs one ball with one obstacle, and there are at
/// most as many contacts as events.
pub proof fn lemma_all_contacts_pair_ball_with_obstacle(
    bodies: Map<BodyHandle, Entity>,
    tags: Map<Entity, TagSet>,
    events: Seq<ContactEvent>,
)
    ensures
        classified_all(bodies, tags, events).len() <= events.len(),
        forall|i: int|
            0 <= i < classified_all(bodies, tags, events).len() ==> {
                let c = #[trigger] classified_all(bodies, tags, events)[i];
                &&& tags_in(tags, c.ball).ball
                &&& !tags_in(tags, c.other).ball
                &&& kind_against(tags_in(tags, c.other)) == Some(c.kind)
                &&& bodies.contains_value(c.ball)
                &&& bodies.contains_value(c.other)
            },
    decreases events.len(),
{
    if events.len() > 0 {
        lemma_all_contacts_pair_ball_with_obstacle(bodies, tags, events.drop_last());
        lemma_contact_pairs_ball_with_obstacle(bodies, tags, events.last());
    }
}

/// Each event is read on its own and the order of arrival is kept: the
/// contacts of two runs of events, one after the other, are the contacts of
/// the first run followed by those of the second.
pub proof fn lemma_classified_all_in_order(
    bodies: Map<BodyHandle, Entity>,
    tags: Map<Entity, TagSet>,
    first: Seq<ContactEvent>,
    second: Seq<ContactEvent>,
)
    ensures
        classified_all(bodies, tags, first + second) == classified_all(bodies, tags, first)
            + classified_all(bodies, tags, second),
    decreases second.len(),
{
    if second.len() == 0 {
        assert(first + second =~= first);
        assert(classified_all(bodies, tags, first) + Seq::<Contact>::empty() =~= classified_all(
            bodies,
            tags,
            first,
        ));
    } else {
        let both = first + second;
        assert(both.drop_last() =~= first + second.drop_last());
        assert(both.last() == second.last());
        lemma_classified_all_in_order(bodies, tags, first, second.drop_last());
        let head = classified_all(bodies, tags, first);
        let tail = classified_all(bodies, tags, second.drop_last());
        match classified(bodies, tags, second.last()) {
            Some(contact) => {
                assert((head + tail).push(contact) =~= head + tail.push(contact));
            },
            None => {},
        }
    }
}

/// An event that names a body without a registry entry yields no contact.
pub proof fn lemma_unknown_handle_is_dropped(
    bodies: Map<BodyHandle, Entity>,
    tags: Map<Entity, TagSet>,
    first: BodyHandle,
    second: BodyHandle,
)
    requires
        !bodies.contains_key(first) || !bodies.contains_key(second),
    ensures
        classified(bodies, tags, ContactEvent::Started(first, second)) is None,
{
}

} // verus!
