//! The entities that are alive and the tags that say what each of them is.

use std::collections::HashMap;
use vstd::prelude::*;
use crate::registry::Entity;

verus! {

/// What an entity can be.
#[derive(Clone, Copy, Debug, PartialEq, Eq, Structural)]
pub enum Tag {
    Ball,
    Paddle,
    Brick,
    Wall,
    TopWall,
}

/// The tags that an entity carries, one flag for each.
#[derive(Clone, Copy, Debug, PartialEq, Eq, Structural)]
pub struct TagSet {
    pub ball: bool,
    pub paddle: bool,
    pub brick: bool,
    pub wall: bool,
    pub top_wall: bool,
}

impl TagSet {
    /// The set without any tag.
    pub open spec fn spec_empty() -> TagSet {
        TagSet { ball: false, paddle: false, brick: false, wall: false, top_wall: false }
    }

    /// The set without any tag.
    #[verifier::when_used_as_spec(spec_empty)]
    pub fn empty() -> (t: TagSet)
        ensures
            t == TagSet::spec_empty(),
    {
        TagSet { ball: false, paddle: false, brick: false, wall: false, top_wall: false }
    }

    /// Whether the set holds `tag`.
    pub open spec fn spec_has(self, tag: Tag) -> bool {
        match tag {
            Tag::Ball => self.ball,
            Tag::Paddle => self.paddle,
            Tag::Brick => self.brick,
            Tag::Wall => self.wall,
            Tag::TopWall => self.top_wall,
        }
    }

    /// Whether the set holds `tag`.
    #[verifier::when_used_as_spec(spec_has)]
    pub fn has(self, tag: Tag) -> (b: bool)
        ensures
            b == self.spec_has(tag),
    {
        match tag {
            Tag::Ball => self.ball,
            Tag::Paddle => self.paddle,
            Tag::Brick => self.brick,
            Tag::Wall => self.wall,
            Tag::TopWall => self.top_wall,
        }
    }

    /// This set with `tag` added.
    pub open spec fn spec_with(self, tag: Tag) -> TagSet {
        match tag {
            Tag::Ball => TagSet { ball: true, ..self },
            Tag::Paddle => TagSet { paddle: true, ..self },
            Tag::Brick => TagSet { brick: true, ..self },
            Tag::Wall => TagSet { wall: true, ..self },
            Tag::TopWall => TagSet { top_wall: true, ..self },
        }
    }

    /// This set with `tag` added.
    #[verifier::when_used_as_spec(spec_with)]
    pub fn with(self, tag: Tag) -> (t: TagSet)
        ensures
            t == self.spec_with(tag),
    {
        let mut t = self;
        match tag {
            Tag::Ball => {
                t.ball = true;
            },
            Tag::Paddle => {
                t.paddle = true;
            },
            Tag::Brick => {
                t.brick = true;
            },
            Tag::Wall => {
                t.wall = true;
            },
            Tag::TopWall => {
                t.top_wall = true;
            },
        }
        t
    }

    /// The set that holds `tag` and nothing else.
    pub open spec fn spec_only(tag: Tag) -> TagSet {
        TagSet::spec_empty().spec_with(tag)
    }

    /// The set that holds `tag` and nothing else.
    #[verifier::when_used_as_spec(spec_only)]
    pub fn only(tag: Tag) -> (t: TagSet)
        ensures
            t == TagSet::spec_only(tag),
    {
        TagSet::empty().with(tag)
    }
}

/// The tags of `entity` in `tags`; an entity that is not alive carries none.
pub open spec fn tags_in(tags: Map<Entity, TagSet>, entity: Entity) -> TagSet {
    if tags.contains_key(entity) {
        tags[entity]
    } else {
        TagSet::spec_empty()
    }
}

/// The live entities, each with its tags.
pub struct World {
    tags: HashMap<u64, TagSet>,
}

impl World {
    /// The world as a map from each live entity to its tags.
    pub closed spec fn view(&self) -> Map<Entity, TagSet> {
        Map::new(|e: Entity| self.tags@.contains_key(e.id), |e: Entity| self.tags@[e.id])
    }

    /// A world without entities.
    pub fn new() -> (w: World)
        ensures
            w@ == Map::<Entity, TagSet>::empty(),
    {
        let w = World { tags: HashMap::new() };
        assert(w@ =~= Map::<Entity, TagSet>::empty());
        w
    }

    /// Brings `entity` to life with `tags`. Returns `false`, and changes
    /// nothing, if the entity is alive already.
    pub fn spawn(&mut self, entity: Entity, tags: TagSet) -> (fresh: bool)
        ensures
            fresh == !old(self)@.contains_key(entity),
            fresh ==> final(self)@ == old(self)@.insert(entity, tags),
            !fresh ==> final(self)@ == old(self)@,
    {
        if self.tags.contains_key(&entity.id) {
            return false;
        }
        self.tags.insert(entity.id, tags);
        assert(self@ =~= old(self)@.insert(entity, tags));
        true
    }

    /// Removes `entity` from the world. Returns whether it was alive; removing
    /// an entity that is gone already changes nothing.
    pub fn despawn(&mut self, entity: Entity) -> (was_alive: bool)
        ensures
            was_alive == old(self)@.contains_key(entity),
            final(self)@ == old(self)@.remove(entity),
    {
        let removed = self.tags.remove(&entity.id);
        assert(self@ =~= old(self)@.remove(entity));
        removed.is_some()
    }

    /// Whether `entity` is alive.
    pub fn is_alive(&self, entity: Entity) -> (b: bool)
        ensures
            b == self@.contains_key(entity),
    {
        self.tags.contains_key(&entity.id)
    }

    /// The tags of `entity`; an entity that is not alive carries none.
    pub fn tags_of(&self, entity: Entity) -> (t: TagSet)
        ensures
            t == tags_in(self@, entity),
    {
        match self.tags.get(&entity.id) {
            Some(t) => *t,
            None => TagSet::empty(),
        }
    }
}

} // verus!
