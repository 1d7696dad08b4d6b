//! What the game engine and the physics backend hand to this library:
//! placements, which are carried through unread, and the sets of entities
//! that an object overlaps.

use vstd::prelude::*;
use bevy::ecs::entity::Entity;
use bevy_xpbd_2d::prelude::CollidingEntities;

verus! {

/// bevy's `Transform`: a placement (position, rotation, scale). The library
/// never looks inside.
#[verifier::external_type_specification]
#[verifier::external_body]
pub struct ExTransform(bevy::transform::components::Transform);

/// bevy_xpbd_2d's `CollidingEntities`: the entities that one object
/// overlaps in the current tick.
#[verifier::external_type_specification]
#[verifier::external_body]
pub struct ExCollidingEntities(bevy_xpbd_2d::prelude::CollidingEntities);

/// The members of an overlap set, each as the 64-bit form of its entity
/// (`Entity::to_bits`).
pub uninterp spec fn colliding_ids(colliding: CollidingEntities) -> Set<u64>;

/// Membership test of the overlap set: `Entity::try_from_bits` turns `id`
/// into an entity, and hashbrown's `HashSet::contains`, reached through
/// `CollidingEntities`, looks it up. Not proved: the answer is taken to be
/// membership of `id` in `colliding_ids`. Bits that `try_from_bits` refuses
/// are no entity's 64-bit form and so belong to no set: for them the answer
/// is `false` without a lookup.
#[verifier::external_body]
pub(crate) fn overlaps(colliding: &CollidingEntities, id: u64) -> (hit: bool)
    ensures
        hit == colliding_ids(*colliding).contains(id),
{
    match Entity::try_from_bits(id) {
        Ok(entity) => colliding.contains(&entity),
        Err(_) => false,
    }
}

/// Emptiness test of the overlap set: hashbrown's `HashSet::is_empty`,
/// reached through `CollidingEntities`. Not proved: the answer is taken to
/// say whether `colliding_ids` has no member.
#[verifier::external_body]
pub(crate) fn overlaps_nothing(colliding: &CollidingEntities) -> (empty: bool)
    ensures
        empty == (forall|id: u64| !colliding_ids(*colliding).contains(id)),
{
    colliding.is_empty()
}

} // verus!
