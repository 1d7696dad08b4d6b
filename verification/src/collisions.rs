//! Collision resolution: from the overlaps that the physics backend reports
//! for one tick to the objects that leave the arena and the events that
//! record their destruction.

use vstd::prelude::*;
use bevy::transform::components::Transform;
use bevy_xpbd_2d::prelude::CollidingEntities;
use crate::asteroid::MeteorType;
use crate::engine::{colliding_ids, overlaps, overlaps_nothing};
use crate::spaceship::ShipDestroyed;

verus! {

/// A meteor as the resolver sees it.
pub struct MeteorBody<'a> {
    pub entity: u64,
    pub colliding: &'a CollidingEntities,
    pub meteor_type: MeteorType,
    pub transform: Transform,
}

/// Record of a meteor destroyed by a laser.
pub struct MeteorDestroyed {
    pub destroyed_at: Transform,
    pub destroyed_type: MeteorType,
}

/// What one pass over lasers and meteors decides.
pub struct LaserMeteorOutcome {
    /// Objects to remove, each named once.
    pub despawned: Vec<u64>,
    /// One event for every overlapping pair of a meteor and a laser.
    pub events: Vec<MeteorDestroyed>,
}

impl<'a> MeteorBody<'a> {
    /// The meteor overlaps the object `id`.
    pub open spec fn touches(self, id: u64) -> bool {
        colliding_ids(*self.colliding).contains(id)
    }

    /// The event that records this meteor's destruction.
    pub open spec fn destroyed(self) -> MeteorDestroyed {
        MeteorDestroyed { destroyed_at: self.transform, destroyed_type: self.meteor_type }
    }
}

/// The events of one meteor: one for each laser it overlaps, in the order of
/// `lasers`.
pub open spec fn meteor_events(meteor: MeteorBody, lasers: Seq<u64>) -> Seq<MeteorDestroyed>
    decreases lasers.len(),
{
    if lasers.len() == 0 {
        Seq::empty()
    } else if meteor.touches(lasers.last()) {
        meteor_events(meteor, lasers.drop_last()).push(meteor.destroyed())
    } else {
        meteor_events(meteor, lasers.drop_last())
    }
}

/// The events of a tick: those of each meteor, in the order of `meteors`.
pub open spec fn laser_meteor_events(meteors: Seq<MeteorBody>, lasers: Seq<u64>) -> Seq<
    MeteorDestroyed,
>
    decreases meteors.len(),
{
    if meteors.len() == 0 {
        Seq::empty()
    } else {
        laser_meteor_events(meteors.drop_last(), lasers) + meteor_events(meteors.last(), lasers)
    }
}

/// `ids` with `id` added at the end, unless it is there already.
pub open spec fn marked(ids: Seq<u64>, id: u64) -> Seq<u64> {
    if ids.contains(id) {
        ids
    } else {
        ids.push(id)
    }
}

/// The removed objects after one meteor met `lasers`, given those removed
/// `so_far`: for each laser it overlaps, in order, the laser and then the
/// meteor, each unless named before.
pub open spec fn meteor_removals(so_far: Seq<u64>, meteor: MeteorBody, lasers: Seq<u64>) -> Seq<
    u64,
>
    decreases lasers.len(),
{
    if lasers.len() == 0 {
        so_far
    } else if meteor.touches(lasers.last()) {
        marked(
            marked(meteor_removals(so_far, meteor, lasers.drop_last()), lasers.last()),
            meteor.entity,
        )
    } else {
        meteor_removals(so_far, meteor, lasers.drop_last())
    }
}

/// The removed objects of a tick, in the order in which the pass over
/// meteors and lasers first meets them.
pub open spec fn laser_meteor_removals(meteors: Seq<MeteorBody>, lasers: Seq<u64>) -> Seq<u64>
    decreases meteors.len(),
{
    if meteors.len() == 0 {
        Seq::empty()
    } else {
        meteor_removals(
            laser_meteor_removals(meteors.drop_last(), lasers),
            meteors.last(),
            lasers,
        )
    }
}

/// Meteor `i` overlaps laser `j`, and `id` is one of the two.
pub open spec fn removed_by_pair(
    meteors: Seq<MeteorBody>,
    lasers: Seq<u64>,
    i: int,
    j: int,
    id: u64,
) -> bool {
    meteors[i].touches(lasers[j]) && (id == lasers[j] || id == meteors[i].entity)
}

/// `id` is a laser or a meteor of some overlapping pair among the first `i`
/// meteors, or of meteor `i` with one of the first `j` lasers.
pub open spec fn removed_before(
    meteors: Seq<MeteorBody>,
    lasers: Seq<u64>,
    i: int,
    j: int,
    id: u64,
) -> bool {
    exists|m: int, l: int|
        0 <= m < meteors.len() && 0 <= l < lasers.len() && (m < i || (m == i && l < j))
            && #[trigger] removed_by_pair(meteors, lasers, m, l, id)
}

/// `id` is a laser or a meteor of some overlapping pair.
pub open spec fn laser_meteor_removed(meteors: Seq<MeteorBody>, lasers: Seq<u64>, id: u64) -> bool {
    exists|m: int, l: int|
        0 <= m < meteors.len() && 0 <= l < lasers.len() && #[trigger] removed_by_pair(
            meteors,
            lasers,
            m,
            l,
            id,
        )
}

/// Whether `id` occurs in `ids`.
pub fn listed(ids: &Vec<u64>, id: u64) -> (found: bool)
    ensures
        found == ids@.contains(id),
{
    let mut k: usize = 0;
    while k < ids.len()
        invariant
            k <= ids.len(),
            forall|n: int| 0 <= n < k ==> ids@[n] != id,
        decreases ids.len() - k,
    {
        if ids[k] == id {
            return true;
        }
        k += 1;
    }
    false
}

/// Adds `id` to `ids` unless it is there already, so that removing an object
/// twice in one tick names it once.
pub fn mark_removed(ids: &mut Vec<u64>, id: u64)
    requires
        old(ids)@.no_duplicates(),
    ensures
        final(ids)@.no_duplicates(),
        forall|x: u64| final(ids)@.contains(x) <==> (old(ids)@.contains(x) || x == id),
        final(ids)@ == marked(old(ids)@, id),
{
    if !listed(ids, id) {
        let ghost before = ids@;
        ids.push(id);
        proof {
            assert forall|x: u64| ids@.contains(x) <==> (before.contains(x) || x == id) by {
                if ids@.contains(x) {
                    let n = choose|n: int| 0 <= n < ids@.len() && ids@[n] == x;
                    if n < before.len() {
                        assert(before[n] == x);
                    }
                }
                if before.contains(x) {
                    let n = choose|n: int| 0 <= n < before.len() && before[n] == x;
                    assert(ids@[n] == x);
                }
                if x == id {
                    assert(ids@[before.len() as int] == x);
                }
            }
        }
    }
}

/// A meteor that overlaps none of `lasers` yields no event and removes
/// nothing.
pub proof fn untouched_meteor_yields_nothing(meteor: MeteorBody, lasers: Seq<u64>)
    requires
        forall|j: int| 0 <= j < lasers.len() ==> !meteor.touches(lasers[j]),
    ensures
        meteor_events(meteor, lasers) == Seq::<MeteorDestroyed>::empty(),
        forall|so_far: Seq<u64>| #[trigger] meteor_removals(so_far, meteor, lasers) == so_far,
    decreases lasers.len(),
{
    if lasers.len() > 0 {
        untouched_meteor_yields_nothing(meteor, lasers.drop_last());
    }
    assert forall|so_far: Seq<u64>| #[trigger]
        meteor_removals(so_far, meteor, lasers) == so_far by {
        if lasers.len() > 0 {
            assert(meteor_removals(so_far, meteor, lasers.drop_last()) == so_far);
        }
    }
}

/// Lasers against meteors. Every overlapping pair of a meteor and a laser
/// removes both and yields one event with the meteor's placement and size;
/// the events come meteor by meteor and, for one meteor, laser by laser. An
/// object that takes part in several pairs is named once among the removed.
/// Nothing else is removed.
pub fn laser_meteor_collision<'a>(lasers: &Vec<u64>, meteors: &Vec<MeteorBody<'a>>) -> (out:
    LaserMeteorOutcome)
    ensures
        out.events@ == laser_meteor_events(meteors@, lasers@),
        out.despawned@ == laser_meteor_removals(meteors@, lasers@),
        out.despawned@.no_duplicates(),
        forall|id: u64|
            out.despawned@.contains(id) <==> laser_meteor_removed(meteors@, lasers@, id),
{
    let mut despawned: Vec<u64> = Vec::new();
    let mut events: Vec<MeteorDestroyed> = Vec::new();
    let mut i: usize = 0;
    while i < meteors.len()
        invariant
            i <= meteors.len(),
            events@ == laser_meteor_events(meteors@.take(i as int), lasers@),
            despawned@ == laser_meteor_removals(meteors@.take(i as int), lasers@),
            despawned@.no_duplicates(),
            forall|id: u64|
                despawned@.contains(id) <==> removed_before(meteors@, lasers@, i as int, 0, id),
        decreases meteors.len() - i,
    {
        let meteor = &meteors[i];
        let ghost events_before = events@;
        let ghost removed_so_far = despawned@;
        let mut j: usize = 0;
        if overlaps_nothing(meteor.colliding) {
            j = lasers.len();
            proof {
                untouched_meteor_yields_nothing(*meteor, lasers@);
                assert(lasers@.take(j as int) =~= lasers@);
                assert forall|id: u64|
                    removed_before(meteors@, lasers@, i as int, j as int, id) implies removed_before(
                    meteors@,
                    lasers@,
                    i as int,
                    0,
                    id,
                ) by {
                    let (m, l) = choose|m: int, l: int|
                        0 <= m < meteors@.len() && 0 <= l < lasers@.len() && (m < i || (m == i
                            && l < j)) && #[trigger] removed_by_pair(meteors@, lasers@, m, l, id);
                    assert(m < i);
                }
            }
        }
        while j < lasers.len()
            invariant
                i < meteors.len(),
                j <= lasers.len(),
                *meteor == meteors@[i as int],
                events@ == events_before + meteor_events(*meteor, lasers@.take(j as int)),
                despawned@ == meteor_removals(removed_so_far, *meteor, lasers@.take(j as int)),
                despawned@.no_duplicates(),
                forall|id: u64|
                    despawned@.contains(id) <==> removed_before(
                        meteors@,
                        lasers@,
                        i as int,
                        j as int,
                        id,
                    ),
            decreases lasers.len() - j,
        {
            let laser = lasers[j];
            let ghost despawned_before = despawned@;
            let hit = overlaps(meteor.colliding, laser);
            if hit {
                mark_removed(&mut despawned, laser);
                mark_removed(&mut despawned, meteor.entity);
                events.push(
                    MeteorDestroyed {
                        destroyed_at: meteor.transform,
                        destroyed_type: meteor.meteor_type,
                    },
                );
            }
            proof {
                assert(lasers@.take(j + 1).drop_last() =~= lasers@.take(j as int));
                assert(lasers@.take(j + 1).last() == laser);
                assert forall|id: u64|
                    despawned@.contains(id) <==> removed_before(
                        meteors@,
                        lasers@,
                        i as int,
                        j + 1,
                        id,
                    ) by {
                    if removed_before(meteors@, lasers@, i as int, j + 1, id) {
                        let (m, l) = choose|m: int, l: int|
                            0 <= m < meteors@.len() && 0 <= l < lasers@.len() && (m < i || (m == i
                                && l < j + 1)) && #[trigger] removed_by_pair(
                                meteors@,
                                lasers@,
                                m,
                                l,
                                id,
                            );
                        if m == i && l == j {
                            assert(hit);
                        } else {
                            assert(removed_by_pair(meteors@, lasers@, m, l, id));
                            assert(removed_before(meteors@, lasers@, i as int, j as int, id));
                        }
                    }
                    if despawned_before.contains(id) {
                        let (m, l) = choose|m: int, l: int|
                            0 <= m < meteors@.len() && 0 <= l < lasers@.len() && (m < i || (m == i
                                && l < j)) && #[trigger] removed_by_pair(
                                meteors@,
                                lasers@,
                                m,
                                l,
                                id,
                            );
                        assert(removed_by_pair(meteors@, lasers@, m, l, id));
                    }
                    if hit && (id == laser || id == meteor.entity) {
                        assert(removed_by_pair(meteors@, lasers@, i as int, j as int, id));
                    }
                }
            }
            j += 1;
        }
        proof {
            assert(lasers@.take(j as int) =~= lasers@);
            assert(meteors@.take(i + 1).drop_last() =~= meteors@.take(i as int));
            assert(meteors@.take(i + 1).last() == *meteor);
            assert forall|id: u64|
                removed_before(meteors@, lasers@, i as int, j as int, id) <==> removed_before(
                    meteors@,
                    lasers@,
                    i + 1,
                    0,
                    id,
                ) by {
                if removed_before(meteors@, lasers@, i as int, j as int, id) {
                    let (m, l) = choose|m: int, l: int|
                        0 <= m < meteors@.len() && 0 <= l < lasers@.len() && (m < i || (m == i
                            && l < j)) && #[trigger] removed_by_pair(meteors@, lasers@, m, l, id);
                    assert(removed_by_pair(meteors@, lasers@, m, l, id));
                }
                if removed_before(meteors@, lasers@, i + 1, 0, id) {
                    let (m, l) = choose|m: int, l: int|
                        0 <= m < meteors@.len() && 0 <= l < lasers@.len() && (m < i + 1 || (m == i
                            + 1 && l < 0)) && #[trigger] removed_by_pair(
                            meteors@,
                            lasers@,
                            m,
                            l,
                            id,
                        );
                    assert(removed_by_pair(meteors@, lasers@, m, l, id));
                }
            }
        }
        i += 1;
    }
    proof {
        assert(meteors@.take(i as int) =~= meteors@);
        assert forall|id: u64|
            removed_before(meteors@, lasers@, i as int, 0, id) <==> laser_meteor_removed(
                meteors@,
                lasers@,
                id,
            ) by {
            if removed_before(meteors@, lasers@, i as int, 0, id) {
                let (m, l) = choose|m: int, l: int|
                    0 <= m < meteors@.len() && 0 <= l < lasers@.len() && (m < i || (m == i && l
                        < 0)) && #[trigger] removed_by_pair(meteors@, lasers@, m, l, id);
                assert(removed_by_pair(meteors@, lasers@, m, l, id));
            }
            if laser_meteor_removed(meteors@, lasers@, id) {
                let (m, l) = choose|m: int, l: int|
                    0 <= m < meteors@.len() && 0 <= l < lasers@.len() && #[trigger] removed_by_pair(
                        meteors@,
                        lasers@,
                        m,
                        l,
                        id,
                    );
                assert(removed_by_pair(meteors@, lasers@, m, l, id));
            }
        }
    }
    LaserMeteorOutcome { despawned, events }
}

/// The craft as the resolver sees it.
pub struct PlayerBody<'a> {
    pub entity: u64,
    pub colliding: &'a CollidingEntities,
    pub transform: Transform,
}

/// What one pass over the craft and the meteors decides.
pub struct ShipMeteorOutcome {
    /// Crafts to remove, each named once.
    pub despawned: Vec<u64>,
    /// One event for every overlapping pair of a craft and a meteor.
    pub events: Vec<ShipDestroyed>,
}

impl<'a> PlayerBody<'a> {
    /// The craft overlaps the object `id`.
    pub open spec fn touches(self, id: u64) -> bool {
        colliding_ids(*self.colliding).contains(id)
    }

    /// The event that records this craft's destruction.
    pub open spec fn destroyed(self) -> ShipDestroyed {
        ShipDestroyed { destroyed_at: self.transform }
    }
}

/// The events of one craft: one for each meteor it overlaps, in the order of
/// `meteors`.
pub open spec fn ship_events(player: PlayerBody, meteors: Seq<u64>) -> Seq<ShipDestroyed>
    decreases meteors.len(),
{
    if meteors.len() == 0 {
        Seq::empty()
    } else if player.touches(meteors.last()) {
        ship_events(player, meteors.drop_last()).push(player.destroyed())
    } else {
        ship_events(player, meteors.drop_last())
    }
}

/// The events of a tick: those of each craft, in the order of `players`.
pub open spec fn ship_meteor_events(players: Seq<PlayerBody>, meteors: Seq<u64>) -> Seq<
    ShipDestroyed,
>
    decreases players.len(),
{
    if players.len() == 0 {
        Seq::empty()
    } else {
        ship_meteor_events(players.drop_last(), meteors) + ship_events(players.last(), meteors)
    }
}

/// The removed crafts after one craft met `meteors`, given those removed
/// `so_far`: the craft, unless named before, if it overlaps any of them.
pub open spec fn ship_removals(so_far: Seq<u64>, player: PlayerBody, meteors: Seq<u64>) -> Seq<u64>
    decreases meteors.len(),
{
    if meteors.len() == 0 {
        so_far
    } else if player.touches(meteors.last()) {
        marked(ship_removals(so_far, player, meteors.drop_last()), player.entity)
    } else {
        ship_removals(so_far, player, meteors.drop_last())
    }
}

/// The removed crafts of a tick, in the order of `players`.
pub open spec fn ship_meteor_removals(players: Seq<PlayerBody>, meteors: Seq<u64>) -> Seq<u64>
    decreases players.len(),
{
    if players.len() == 0 {
        Seq::empty()
    } else {
        ship_removals(ship_meteor_removals(players.drop_last(), meteors), players.last(), meteors)
    }
}

/// Craft `i` is `id` and overlaps meteor `j`.
pub open spec fn ship_hit_by(
    players: Seq<PlayerBody>,
    meteors: Seq<u64>,
    i: int,
    j: int,
    id: u64,
) -> bool {
    players[i].touches(meteors[j]) && id == players[i].entity
}

/// `id` is one of the first `i` crafts and overlaps a meteor, or is craft
/// `i` and overlaps one of the first `j` meteors.
pub open spec fn ship_removed_before(
    players: Seq<PlayerBody>,
    meteors: Seq<u64>,
    i: int,
    j: int,
    id: u64,
) -> bool {
    exists|p: int, m: int|
        0 <= p < players.len() && 0 <= m < meteors.len() && (p < i || (p == i && m < j))
            && #[trigger] ship_hit_by(players, meteors, p, m, id)
}

/// `id` is a craft that overlaps a meteor.
pub open spec fn ship_removed(players: Seq<PlayerBody>, meteors: Seq<u64>, id: u64) -> bool {
    exists|p: int, m: int|
        0 <= p < players.len() && 0 <= m < meteors.len() && #[trigger] ship_hit_by(
            players,
            meteors,
            p,
            m,
            id,
        )
}

/// A craft that overlaps none of `meteors` yields no event and is not
/// removed.
pub proof fn untouched_ship_yields_nothing(player: PlayerBody, meteors: Seq<u64>)
    requires
        forall|j: int| 0 <= j < meteors.len() ==> !player.touches(meteors[j]),
    ensures
        ship_events(player, meteors) == Seq::<ShipDestroyed>::empty(),
        forall|so_far: Seq<u64>| #[trigger] ship_removals(so_far, player, meteors) == so_far,
    decreases meteors.len(),
{
    if meteors.len() > 0 {
        untouched_ship_yields_nothing(player, meteors.drop_last());
    }
    assert forall|so_far: Seq<u64>| #[trigger]
        ship_removals(so_far, player, meteors) == so_far by {
        if meteors.len() > 0 {
            assert(ship_removals(so_far, player, meteors.drop_last()) == so_far);
        }
    }
}

/// The craft against meteors. Every overlapping pair of a craft and a meteor
/// removes the craft, never the meteor, and yields one event with the
/// craft's placement; the events come craft by craft and, for one craft,
/// meteor by meteor. A craft that overlaps several meteors is named once
/// among the removed. Nothing else is removed.
pub fn ship_meteor_collision<'a>(meteors: &Vec<u64>, player_ship: &Vec<PlayerBody<'a>>) -> (out:
    ShipMeteorOutcome)
    ensures
        out.events@ == ship_meteor_events(player_ship@, meteors@),
        out.despawned@ == ship_meteor_removals(player_ship@, meteors@),
        out.despawned@.no_duplicates(),
        forall|id: u64| out.despawned@.contains(id) <==> ship_removed(player_ship@, meteors@, id),
{
    let mut despawned: Vec<u64> = Vec::new();
    let mut events: Vec<ShipDestroyed> = Vec::new();
    let mut i: usize = 0;
    while i < player_ship.len()
        invariant
            i <= player_ship.len(),
            events@ == ship_meteor_events(player_ship@.take(i as int), meteors@),
            despawned@ == ship_meteor_removals(player_ship@.take(i as int), meteors@),
            despawned@.no_duplicates(),
            forall|id: u64|
                despawned@.contains(id) <==> ship_removed_before(
                    player_ship@,
                    meteors@,
                    i as int,
                    0,
                    id,
                ),
        decreases player_ship.len() - i,
    {
        let player = &player_ship[i];
        let ghost events_before = events@;
        let ghost removed_so_far = despawned@;
        let mut j: usize = 0;
        if overlaps_nothing(player.colliding) {
            j = meteors.len();
            proof {
                untouched_ship_yields_nothing(*player, meteors@);
                assert(meteors@.take(j as int) =~= meteors@);
                assert forall|id: u64|
                    ship_removed_before(
                        player_ship@,
                        meteors@,
                        i as int,
                        j as int,
                        id,
                    ) implies ship_removed_before(player_ship@, meteors@, i as int, 0, id) by {
                    let (p, m) = choose|p: int, m: int|
                        0 <= p < player_ship@.len() && 0 <= m < meteors@.len() && (p < i || (p == i
                            && m < j)) && #[trigger] ship_hit_by(player_ship@, meteors@, p, m, id);
                    assert(p < i);
                }
            }
        }
        while j < meteors.len()
            invariant
                i < player_ship.len(),
                j <= meteors.len(),
                *player == player_ship@[i as int],
                events@ == events_before + ship_events(*player, meteors@.take(j as int)),
                despawned@ == ship_removals(removed_so_far, *player, meteors@.take(j as int)),
                despawned@.no_duplicates(),
                forall|id: u64|
                    despawned@.contains(id) <==> ship_removed_before(
                        player_ship@,
                        meteors@,
                        i as int,
                        j as int,
                        id,
                    ),
            decreases meteors.len() - j,
        {
            let meteor = meteors[j];
            let ghost despawned_before = despawned@;
            let hit = overlaps(player.colliding, meteor);
            if hit {
                mark_removed(&mut despawned, player.entity);
                events.push(ShipDestroyed { destroyed_at: player.transform });
            }
            proof {
                assert(meteors@.take(j + 1).drop_last() =~= meteors@.take(j as int));
                assert(meteors@.take(j + 1).last() == meteor);
                assert forall|id: u64|
                    despawned@.contains(id) <==> ship_removed_before(
                        player_ship@,
                        meteors@,
                        i as int,
                        j + 1,
                        id,
                    ) by {
                    if ship_removed_before(player_ship@, meteors@, i as int, j + 1, id) {
                        let (p, m) = choose|p: int, m: int|
                            0 <= p < player_ship@.len() && 0 <= m < meteors@.len() && (p < i || (p
                                == i && m < j + 1)) && #[trigger] ship_hit_by(
                                player_ship@,
                                meteors@,
                                p,
                                m,
                                id,
                            );
                        if p == i && m == j {
                            assert(hit);
                        } else {
                            assert(ship_hit_by(player_ship@, meteors@, p, m, id));
                            assert(ship_removed_before(
                                player_ship@,
                                meteors@,
                                i as int,
                                j as int,
                                id,
                            ));
                        }
                    }
                    if despawned_before.contains(id) {
                        let (p, m) = choose|p: int, m: int|
                            0 <= p < player_ship@.len() && 0 <= m < meteors@.len() && (p < i || (p
                                == i && m < j)) && #[trigger] ship_hit_by(
                                player_ship@,
                                meteors@,
                                p,
                                m,
                                id,
                            );
                        assert(ship_hit_by(player_ship@, meteors@, p, m, id));
                    }
                    if hit && id == player.entity {
                        assert(ship_hit_by(player_ship@, meteors@, i as int, j as int, id));
                    }
                }
            }
            j += 1;
        }
        proof {
            assert(meteors@.take(j as int) =~= meteors@);
            assert(player_ship@.take(i + 1).drop_last() =~= player_ship@.take(i as int));
            assert(player_ship@.take(i + 1).last() == *player);
            assert forall|id: u64|
                ship_removed_before(
                    player_ship@,
                    meteors@,
                    i as int,
                    j as int,
                    id,
                ) <==> ship_removed_before(player_ship@, meteors@, i + 1, 0, id) by {
                if ship_removed_before(player_ship@, meteors@, i as int, j as int, id) {
                    let (p, m) = choose|p: int, m: int|
                        0 <= p < player_ship@.len() && 0 <= m < meteors@.len() && (p < i || (p == i
                            && m < j)) && #[trigger] ship_hit_by(player_ship@, meteors@, p, m, id);
                    assert(ship_hit_by(player_ship@, meteors@, p, m, id));
                }
                if ship_removed_before(player_ship@, meteors@, i + 1, 0, id) {
                    let (p, m) = choose|p: int, m: int|
                        0 <= p < player_ship@.len() && 0 <= m < meteors@.len() && (p < i + 1 || (p
                            == i + 1 && m < 0)) && #[trigger] ship_hit_by(
                            player_ship@,
                            meteors@,
                            p,
                            m,
                            id,
                        );
                    assert(ship_hit_by(player_ship@, meteors@, p, m, id));
                }
            }
        }
        i += 1;
    }
    proof {
        assert(player_ship@.take(i as int) =~= player_ship@);
        assert forall|id: u64|
            ship_removed_before(player_ship@, meteors@, i as int, 0, id) <==> ship_removed(
                player_ship@,
                meteors@,
                id,
            ) by {
            if ship_removed_before(player_ship@, meteors@, i as int, 0, id) {
                let (p, m) = choose|p: int, m: int|
                    0 <= p < player_ship@.len() && 0 <= m < meteors@.len() && (p < i || (p == i
                        && m < 0)) && #[trigger] ship_hit_by(player_ship@, meteors@, p, m, id);
                assert(ship_hit_by(player_ship@, meteors@, p, m, id));
            }
            if ship_removed(player_ship@, meteors@, id) {
                let (p, m) = choose|p: int, m: int|
                    0 <= p < player_ship@.len() && 0 <= m < meteors@.len() && #[trigger] ship_hit_by(
                        player_ship@,
                        meteors@,
                        p,
                        m,
                        id,
                    );
                assert(ship_hit_by(player_ship@, meteors@, p, m, id));
            }
        }
    }
    ShipMeteorOutcome { despawned, events }
}

/// A meteor that overlaps exactly one of `lasers` yields exactly one event,
/// its own.
pub proof fn single_touch_single_event(meteor: MeteorBody, lasers: Seq<u64>, l: int)
    requires
        0 <= l < lasers.len(),
        meteor.touches(lasers[l]),
        forall|j: int| 0 <= j < lasers.len() && j != l ==> !meteor.touches(lasers[j]),
    ensures
        meteor_events(meteor, lasers) == seq![meteor.destroyed()],
    decreases lasers.len(),
{
    if l == lasers.len() - 1 {
        untouched_meteor_yields_nothing(meteor, lasers.drop_last());
        assert(Seq::<MeteorDestroyed>::empty().push(meteor.destroyed()) =~= seq![
            meteor.destroyed(),
        ]);
    } else {
        single_touch_single_event(meteor, lasers.drop_last(), l);
    }
}

/// Meteors none of which overlaps any of `lasers` yield no event.
pub proof fn untouched_meteors_yield_nothing(meteors: Seq<MeteorBody>, lasers: Seq<u64>)
    requires
        forall|i: int, j: int|
            0 <= i < meteors.len() && 0 <= j < lasers.len() ==> !(#[trigger] meteors[i]).touches(
                #[trigger] lasers[j],
            ),
    ensures
        laser_meteor_events(meteors, lasers) == Seq::<MeteorDestroyed>::empty(),
    decreases meteors.len(),
{
    if meteors.len() > 0 {
        untouched_meteors_yield_nothing(meteors.drop_last(), lasers);
        untouched_meteor_yields_nothing(meteors.last(), lasers);
        assert(Seq::<MeteorDestroyed>::empty() + Seq::<MeteorDestroyed>::empty() =~= Seq::<
            MeteorDestroyed,
        >::empty());
    }
}

/// A laser that overlaps a meteor, where that meteor overlaps no other
/// laser: both are removed, the meteor yields exactly one event, which
/// carries its placement and size, and an object that is neither a laser nor
/// a meteor (the craft) is not removed.
pub proof fn laser_hit_removes_both(
    meteors: Seq<MeteorBody>,
    lasers: Seq<u64>,
    m: int,
    l: int,
    craft: u64,
)
    requires
        0 <= m < meteors.len(),
        0 <= l < lasers.len(),
        meteors[m].touches(lasers[l]),
        forall|j: int| 0 <= j < lasers.len() && j != l ==> !meteors[m].touches(lasers[j]),
        forall|j: int| 0 <= j < lasers.len() ==> lasers[j] != craft,
        forall|i: int| 0 <= i < meteors.len() ==> meteors[i].entity != craft,
    ensures
        laser_meteor_removed(meteors, lasers, lasers[l]),
        laser_meteor_removed(meteors, lasers, meteors[m].entity),
        meteor_events(meteors[m], lasers) == seq![meteors[m].destroyed()],
        !laser_meteor_removed(meteors, lasers, craft),
{
    assert(removed_by_pair(meteors, lasers, m, l, lasers[l]));
    assert(removed_by_pair(meteors, lasers, m, l, meteors[m].entity));
    single_touch_single_event(meteors[m], lasers, l);
    if laser_meteor_removed(meteors, lasers, craft) {
        let (i, j) = choose|i: int, j: int|
            0 <= i < meteors.len() && 0 <= j < lasers.len() && #[trigger] removed_by_pair(
                meteors,
                lasers,
                i,
                j,
                craft,
            );
        assert(lasers[j] != craft);
        assert(meteors[i].entity != craft);
    }
}

/// When one meteor and one laser are the only overlapping pair of the tick,
/// the tick yields exactly one event, that meteor's.
pub proof fn only_pair_only_event(meteors: Seq<MeteorBody>, lasers: Seq<u64>, m: int, l: int)
    requires
        0 <= m < meteors.len(),
        0 <= l < lasers.len(),
        meteors[m].touches(lasers[l]),
        forall|i: int, j: int|
            0 <= i < meteors.len() && 0 <= j < lasers.len() && (#[trigger] meteors[i]).touches(
                #[trigger] lasers[j],
            ) ==> i == m && j == l,
    ensures
        laser_meteor_events(meteors, lasers) == seq![meteors[m].destroyed()],
    decreases meteors.len(),
{
    let front = meteors.drop_last();
    if m == meteors.len() - 1 {
        assert forall|i: int, j: int|
            0 <= i < front.len() && 0 <= j < lasers.len() implies !(#[trigger] front[i]).touches(
            #[trigger] lasers[j],
        ) by {
            assert(front[i] == meteors[i]);
        }
        untouched_meteors_yield_nothing(front, lasers);
        single_touch_single_event(meteors[m], lasers, l);
        assert(Seq::<MeteorDestroyed>::empty() + seq![meteors[m].destroyed()] =~= seq![
            meteors[m].destroyed(),
        ]);
    } else {
        assert forall|i: int, j: int|
            0 <= i < front.len() && 0 <= j < lasers.len() && (#[trigger] front[i]).touches(
                #[trigger] lasers[j],
            ) implies i == m && j == l by {
            assert(front[i] == meteors[i]);
        }
        assert(front[m] == meteors[m]);
        only_pair_only_event(front, lasers, m, l);
        untouched_meteor_yields_nothing(meteors.last(), lasers);
        assert(seq![meteors[m].destroyed()] + Seq::<MeteorDestroyed>::empty() =~= seq![
            meteors[m].destroyed(),
        ]);
    }
}

/// A craft that overlaps exactly one of `meteors` yields exactly one event,
/// its own.
pub proof fn single_impact_single_event(player: PlayerBody, meteors: Seq<u64>, m: int)
    requires
        0 <= m < meteors.len(),
        player.touches(meteors[m]),
        forall|j: int| 0 <= j < meteors.len() && j != m ==> !player.touches(meteors[j]),
    ensures
        ship_events(player, meteors) == seq![player.destroyed()],
    decreases meteors.len(),
{
    if m == meteors.len() - 1 {
        untouched_ship_yields_nothing(player, meteors.drop_last());
        assert(Seq::<ShipDestroyed>::empty().push(player.destroyed()) =~= seq![
            player.destroyed(),
        ]);
    } else {
        single_impact_single_event(player, meteors.drop_last(), m);
    }
}

/// A craft that overlaps a meteor is removed, and the pass removes nothing
/// but crafts: the meteor stays.
pub proof fn impact_removes_craft_only(
    players: Seq<PlayerBody>,
    meteors: Seq<u64>,
    p: int,
    m: int,
)
    requires
        0 <= p < players.len(),
        0 <= m < meteors.len(),
        players[p].touches(meteors[m]),
    ensures
        ship_removed(players, meteors, players[p].entity),
        forall|id: u64|
            ship_removed(players, meteors, id) ==> exists|i: int|
                0 <= i < players.len() && (#[trigger] players[i]).entity == id,
{
    assert(ship_hit_by(players, meteors, p, m, players[p].entity));
    assert forall|id: u64| ship_removed(players, meteors, id) implies exists|i: int|
        0 <= i < players.len() && (#[trigger] players[i]).entity == id by {
        let (i, j) = choose|i: int, j: int|
            0 <= i < players.len() && 0 <= j < meteors.len() && #[trigger] ship_hit_by(
                players,
                meteors,
                i,
                j,
                id,
            );
        assert(players[i].entity == id);
    }
}

} // verus!
