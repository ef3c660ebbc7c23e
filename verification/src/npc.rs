//! Which characters wake up, which of them act, and in what order.

use vstd::prelude::*;
use crate::change::{Change, Component, ComponentType, EntityId, NpcInfo, Spawn, TileInfo, Transform};
use crate::coord::Coord;
use crate::queue::{MessageQueues, QueuesView};
use crate::visibility::{GridView, VisibilityGrid};
use crate::world::{Npc, World};

verus! {

/// A coordinate is in sight at `tick` when its memory cell was stamped with
/// that very tick.
pub open spec fn in_sight(grid: GridView, coord: Coord, tick: u64) -> bool {
    grid.get(coord) matches Some(cell) && cell.last_updated == tick
}

/// A character wakes when it is not yet active and stands in sight.
pub open spec fn wakes(npc: Npc, grid: GridView, tick: u64) -> bool {
    !npc.info.active && in_sight(grid, npc.coord, tick)
}

/// A character is active when it was so before or stands in sight.
pub open spec fn is_active(npc: Npc, grid: GridView, tick: u64) -> bool {
    npc.info.active || in_sight(grid, npc.coord, tick)
}

/// A character takes a turn when it is active and mobile; in the pass of
/// the fast characters it must be fast as well.
pub open spec fn takes_turn(npc: Npc, grid: GridView, tick: u64, fast_only: bool) -> bool {
    is_active(npc, grid, tick) && npc.info.mobile && (fast_only ==> npc.info.fast)
}

/// The change that records that a character woke up, if it did.
pub open spec fn wake_changes(npc: Npc, grid: GridView, tick: u64) -> Seq<Change> {
    if wakes(npc, grid, tick) {
        seq![
            Change::Insert(
                npc.id,
                Component::Npc(NpcInfo { active: true, fast: npc.info.fast, mobile: npc.info.mobile }),
            ),
        ]
    } else {
        Seq::empty()
    }
}

/// Whether an entity that turned into `into` goes on counting down.
pub open spec fn keeps_countdown(into: Transform) -> bool {
    into is Chrysalis || into is Larvae
}

/// The changes that advance the countdown of one character by one round: the
/// tile shows the count; at zero the character transforms, above zero the
/// count drops by one.
pub open spec fn countdown_changes(npc: Npc) -> Seq<Change> {
    match npc.countdown {
        None => Seq::empty(),
        Some(n) => {
            let shown = match npc.tile_info {
                Some(t) => seq![
                    Change::Insert(
                        npc.id,
                        Component::TileInfo(TileInfo { kind: t.kind, countdown: Some(n) }),
                    ),
                ],
                None => Seq::empty(),
            };
            let advanced = if n == 0 {
                match npc.transform {
                    Some(into) => {
                        let hatch = seq![
                            Change::Remove(npc.id, ComponentType::DelayedTransform),
                            Change::Spawn(Spawn::Hatch { id: npc.id, into, at: npc.coord }),
                        ];
                        if keeps_countdown(into) {
                            hatch
                        } else {
                            hatch.push(Change::Remove(npc.id, ComponentType::Countdown))
                        }
                    },
                    None => Seq::empty(),
                }
            } else {
                seq![Change::Insert(npc.id, Component::Countdown((n - 1) as u32))]
            };
            shown + advanced
        },
    }
}

/// Everything one character contributes to the queue when a pass is
/// mustered. The pass of the fast characters looks at fast characters only
/// and leaves countdowns alone.
pub open spec fn npc_changes(npc: Npc, grid: GridView, tick: u64, fast_only: bool) -> Seq<Change> {
    if fast_only {
        if npc.info.fast {
            wake_changes(npc, grid, tick)
        } else {
            Seq::empty()
        }
    } else {
        wake_changes(npc, grid, tick) + countdown_changes(npc)
    }
}

/// The changes of all characters, in storage order.
pub open spec fn muster_changes(npcs: Seq<Npc>, grid: GridView, tick: u64, fast_only: bool) -> Seq<
    Change,
>
    decreases npcs.len(),
{
    if npcs.len() == 0 {
        Seq::empty()
    } else {
        muster_changes(npcs.drop_last(), grid, tick, fast_only) + npc_changes(
            npcs.last(),
            grid,
            tick,
            fast_only,
        )
    }
}

/// The characters that take a turn, in storage order.
pub open spec fn muster_roll(npcs: Seq<Npc>, grid: GridView, tick: u64, fast_only: bool) -> Seq<Npc>
    decreases npcs.len(),
{
    if npcs.len() == 0 {
        Seq::empty()
    } else {
        let front = muster_roll(npcs.drop_last(), grid, tick, fast_only);
        if takes_turn(npcs.last(), grid, tick, fast_only) {
            front.push(npcs.last())
        } else {
            front
        }
    }
}

/// Whether any character is fast.
pub open spec fn any_fast(npcs: Seq<Npc>) -> bool {
    exists|i: int| 0 <= i < npcs.len() && (#[trigger] npcs[i]).info.fast
}

/// The sort key of a distance: unreachable sorts after every distance.
pub open spec fn distance_key(distance: Option<u32>) -> int {
    match distance {
        Some(d) => d as int,
        None => u32::MAX + 1,
    }
}

/// The index at which a character with `key` joins an ordered list: behind
/// every character that is not farther away than it.
pub open spec fn slot(ordered: Seq<Npc>, key: int) -> int
    decreases ordered.len(),
{
    if ordered.len() == 0 {
        0
    } else if distance_key(ordered.last().distance) <= key {
        ordered.len() as int
    } else {
        slot(ordered.drop_last(), key)
    }
}

/// The characters of `roll` by ascending distance to the player, closest
/// first, unreachable ones last; characters at the same distance keep the
/// order they have in `roll`.
pub open spec fn by_distance(roll: Seq<Npc>) -> Seq<Npc>
    decreases roll.len(),
{
    if roll.len() == 0 {
        Seq::empty()
    } else {
        let front = by_distance(roll.drop_last());
        front.insert(slot(front, distance_key(roll.last().distance)), roll.last())
    }
}

/// The ids of a list of characters.
pub open spec fn ids(npcs: Seq<Npc>) -> Seq<EntityId> {
    npcs.map_values(|n: Npc| n.id)
}

/// Whether a list is in ascending order of distance.
pub open spec fn ascending(s: Seq<Npc>) -> bool {
    forall|i: int, j: int|
        0 <= i <= j < s.len() ==> distance_key(#[trigger] s[i].distance) <= distance_key(
            #[trigger] s[j].distance,
        )
}

/// The slot lies within the list, everything before it is no farther than
/// `key`, and everything from it on is farther.
pub proof fn lemma_slot(ordered: Seq<Npc>, key: int)
    requires
        ascending(ordered),
    ensures
        0 <= slot(ordered, key) <= ordered.len(),
        forall|i: int|
            0 <= i < slot(ordered, key) ==> distance_key(#[trigger] ordered[i].distance) <= key,
        forall|i: int|
            slot(ordered, key) <= i < ordered.len() ==> distance_key(
                #[trigger] ordered[i].distance,
            ) > key,
    decreases ordered.len(),
{
    if ordered.len() > 0 && distance_key(ordered.last().distance) > key {
        let front = ordered.drop_last();
        assert(forall|i: int| 0 <= i < front.len() ==> front[i] == ordered[i]);
        lemma_slot(front, key);
    }
}

/// Ordering by distance yields an ascending list that holds exactly the
/// characters of the roll, each as often as the roll does.
pub proof fn lemma_by_distance(roll: Seq<Npc>)
    ensures
        ascending(by_distance(roll)),
        by_distance(roll).len() == roll.len(),
        by_distance(roll).to_multiset() == roll.to_multiset(),
    decreases roll.len(),
{
    broadcast use vstd::seq_lib::group_to_multiset_ensures;

    if roll.len() == 0 {
        assert(by_distance(roll) =~= roll);
    } else {
        let front_roll = roll.drop_last();
        let front = by_distance(front_roll);
        let last = roll.last();
        let key = distance_key(last.distance);
        lemma_by_distance(front_roll);
        lemma_slot(front, key);
        let at = slot(front, key);
        let out = front.insert(at, last);
        assert forall|i: int, j: int| 0 <= i <= j < out.len() implies distance_key(
            #[trigger] out[i].distance,
        ) <= distance_key(#[trigger] out[j].distance) by {
            if i < at {
                assert(out[i] == front[i]);
            } else if i > at {
                assert(out[i] == front[i - 1]);
            }
            if j < at {
                assert(out[j] == front[j]);
            } else if j > at {
                assert(out[j] == front[j - 1]);
            }
        }
        assert(roll =~= front_roll.push(last));
        assert(out.to_multiset() == front.to_multiset().insert(last));
        assert(roll.to_multiset() == front_roll.to_multiset().insert(last));
    }
}

/// The characters of a list that stand at one distance, in the order of
/// the list.
pub open spec fn at_distance(s: Seq<Npc>, key: int) -> Seq<Npc>
    decreases s.len(),
{
    if s.len() == 0 {
        Seq::empty()
    } else {
        let front = at_distance(s.drop_last(), key);
        if distance_key(s.last().distance) == key {
            front.push(s.last())
        } else {
            front
        }
    }
}

/// A character that joins a list in front of none of its own distance
/// joins the characters of its distance at their end, and leaves those of
/// every other distance as they were.
proof fn lemma_at_distance_insert(s: Seq<Npc>, at: int, npc: Npc, key: int)
    requires
        0 <= at <= s.len(),
        forall|i: int| at <= i < s.len() ==> distance_key(#[trigger] s[i].distance) != distance_key(
            npc.distance,
        ),
    ensures
        at_distance(s.insert(at, npc), key) == if distance_key(npc.distance) == key {
            at_distance(s, key).push(npc)
        } else {
            at_distance(s, key)
        },
    decreases s.len(),
{
    let out = s.insert(at, npc);
    if at == s.len() {
        assert(out.drop_last() =~= s);
        assert(out.last() == npc);
    } else {
        let front = s.drop_last();
        assert(out.drop_last() =~= front.insert(at, npc));
        assert(out.last() == s.last());
        assert(forall|i: int| 0 <= i < front.len() ==> front[i] == s[i]);
        lemma_at_distance_insert(front, at, npc, key);
        assert(distance_key(s[s.len() - 1].distance) != distance_key(npc.distance));
    }
}

/// Ordering by distance is stable: the characters at any one distance come
/// out in the order in which the roll holds them.
pub proof fn lemma_by_distance_stable(roll: Seq<Npc>, key: int)
    ensures
        at_distance(by_distance(roll), key) == at_distance(roll, key),
    decreases roll.len(),
{
    if roll.len() > 0 {
        let front = by_distance(roll.drop_last());
        let last = roll.last();
        lemma_by_distance_stable(roll.drop_last(), key);
        lemma_by_distance(roll.drop_last());
        lemma_slot(front, distance_key(last.distance));
        lemma_at_distance_insert(front, slot(front, distance_key(last.distance)), last, key);
    }
}

/// Records the waking of one character, if it wakes, and tells whether it
/// is active.
fn wake(npc: &Npc, grid: &VisibilityGrid, tick: u64, messages: &mut MessageQueues) -> (active: bool)
    ensures
        active == is_active(*npc, grid@, tick),
        final(messages)@ == (QueuesView {
            changes: old(messages)@.changes + wake_changes(*npc, grid@, tick),
            ..old(messages)@
        }),
{
    if npc.info.active {
        assert(old(messages)@.changes + Seq::<Change>::empty() =~= old(messages)@.changes);
        return true;
    }
    let seen = match grid.get(npc.coord) {
        Some(cell) => cell.last_updated == tick,
        None => false,
    };
    if seen {
        messages.change(
            Change::Insert(
                npc.id,
                Component::Npc(NpcInfo { active: true, fast: npc.info.fast, mobile: npc.info.mobile }),
            ),
        );
        assert(messages@.changes =~= old(messages)@.changes + wake_changes(*npc, grid@, tick));
        true
    } else {
        assert(old(messages)@.changes + Seq::<Change>::empty() =~= old(messages)@.changes);
        false
    }
}

/// Advances the countdown of one character by one round.
fn count_down(npc: &Npc, messages: &mut MessageQueues)
    ensures
        final(messages)@ == (QueuesView {
            changes: old(messages)@.changes + countdown_changes(*npc),
            ..old(messages)@
        }),
{
    match npc.countdown {
        None => {},
        Some(n) => {
            match npc.tile_info {
                Some(t) => {
                    messages.change(
                        Change::Insert(
                            npc.id,
                            Component::TileInfo(TileInfo { kind: t.kind, countdown: Some(n) }),
                        ),
                    );
                },
                None => {},
            }
            if n == 0 {
                match npc.transform {
                    Some(into) => {
                        messages.change(Change::Remove(npc.id, ComponentType::DelayedTransform));
                        messages.change(
                            Change::Spawn(Spawn::Hatch { id: npc.id, into, at: npc.coord }),
                        );
                        match into {
                            Transform::Chrysalis | Transform::Larvae => {},
                            Transform::Queen | Transform::Aracnoid | Transform::Beetoid => {
                                messages.change(Change::Remove(npc.id, ComponentType::Countdown));
                            },
                        }
                    },
                    None => {},
                }
            } else {
                messages.change(Change::Insert(npc.id, Component::Countdown(n - 1)));
            }
        },
    }
    assert(messages@.changes =~= old(messages)@.changes + countdown_changes(*npc));
}

/// Musters one pass of the characters.
///
/// Goes through the characters in storage order, queues the change that
/// wakes each character that came into sight, advances the countdowns
/// (unless `fast_only`), and returns the characters that take a turn in
/// this pass, in storage order, together with whether any character at all
/// is fast.
pub fn muster(world: &World, grid: &VisibilityGrid, fast_only: bool, messages: &mut MessageQueues) -> (r:
    (Vec<Npc>, bool))
    ensures
        r.0@ == muster_roll(world.npcs@, grid@, world.count, fast_only),
        r.1 == any_fast(world.npcs@),
        final(messages)@ == (QueuesView {
            changes: old(messages)@.changes + muster_changes(
                world.npcs@,
                grid@,
                world.count,
                fast_only,
            ),
            ..old(messages)@
        }),
{
    let tick = world.count;
    let mut roll: Vec<Npc> = Vec::new();
    let mut fast_seen = false;
    let mut i: usize = 0;
    assert(old(messages)@.changes + Seq::<Change>::empty() =~= old(messages)@.changes);
    while i < world.npcs.len()
        invariant
            i <= world.npcs@.len(),
            tick == world.count,
            roll@ == muster_roll(world.npcs@.take(i as int), grid@, tick, fast_only),
            fast_seen == any_fast(world.npcs@.take(i as int)),
            messages@ == (QueuesView {
                changes: old(messages)@.changes + muster_changes(
                    world.npcs@.take(i as int),
                    grid@,
                    tick,
                    fast_only,
                ),
                ..old(messages)@
            }),
        decreases world.npcs@.len() - i,
    {
        let npc = world.npcs[i];
        let ghost before = world.npcs@.take(i as int);
        let ghost upto = world.npcs@.take(i + 1);
        let ghost queued = messages@.changes;
        proof {
            assert(upto.drop_last() =~= before);
            assert(upto.last() == npc);
            if npc.info.fast {
                assert(upto[i as int].info.fast);
            }
            if any_fast(upto) && !npc.info.fast {
                let k = choose|k: int| 0 <= k < upto.len() && (#[trigger] upto[k]).info.fast;
                assert(before[k].info.fast);
            }
            if any_fast(before) {
                let k = choose|k: int| 0 <= k < before.len() && (#[trigger] before[k]).info.fast;
                assert(upto[k].info.fast);
            }
        }
        fast_seen = fast_seen || npc.info.fast;
        if fast_only && !npc.info.fast {
            assert(queued + Seq::<Change>::empty() =~= queued);
        } else {
            let active = wake(&npc, grid, tick, messages);
            if active && npc.info.mobile {
                roll.push(npc);
            }
            if !fast_only {
                count_down(&npc, messages);
            }
        }
        assert(messages@.changes =~= old(messages)@.changes + muster_changes(
            upto,
            grid@,
            tick,
            fast_only,
        ));
        i += 1;
    }
    assert(world.npcs@.take(world.npcs@.len() as int) =~= world.npcs@);
    (roll, fast_seen)
}

/// Orders the characters of a roll by ascending distance to the player.
///
/// Unreachable characters come last; characters at equal distance keep the
/// order of the roll.
pub fn order_by_distance(roll: &Vec<Npc>) -> (order: Vec<EntityId>)
    ensures
        order@ == ids(by_distance(roll@)),
{
    let mut sorted: Vec<Npc> = Vec::new();
    let mut i: usize = 0;
    while i < roll.len()
        invariant
            i <= roll@.len(),
            sorted@ == by_distance(roll@.take(i as int)),
        decreases roll@.len() - i,
    {
        let npc = roll[i];
        assert(roll@.take(i + 1).drop_last() =~= roll@.take(i as int));
        let mut at: usize = sorted.len();
        assert(sorted@.take(sorted@.len() as int) =~= sorted@);
        while at > 0 && farther(sorted[at - 1].distance, npc.distance)
            invariant
                at <= sorted@.len(),
                slot(sorted@, distance_key(npc.distance)) == slot(
                    sorted@.take(at as int),
                    distance_key(npc.distance),
                ),
            decreases at,
        {
            assert(sorted@.take(at as int).drop_last() =~= sorted@.take(at - 1));
            at -= 1;
        }
        proof {
            if at > 0 {
                assert(sorted@.take(at as int).last() == sorted@[at - 1]);
            }
        }
        sorted.insert(at, npc);
        i += 1;
    }
    assert(roll@.take(roll@.len() as int) =~= roll@);
    let mut order: Vec<EntityId> = Vec::new();
    let mut k: usize = 0;
    while k < sorted.len()
        invariant
            k <= sorted@.len(),
            order@ == ids(sorted@.take(k as int)),
        decreases sorted@.len() - k,
    {
        order.push(sorted[k].id);
        assert(ids(sorted@.take(k + 1)) =~= ids(sorted@.take(k as int)).push(sorted@[k as int].id));
        k += 1;
    }
    assert(sorted@.take(sorted@.len() as int) =~= sorted@);
    order
}

/// Whether `a` is strictly farther from the player than `b`.
fn farther(a: Option<u32>, b: Option<u32>) -> (r: bool)
    ensures
        r == (distance_key(a) > distance_key(b)),
{
    match (a, b) {
        (Some(x), Some(y)) => x > y,
        (Some(_), None) => false,
        (None, Some(_)) => true,
        (None, None) => false,
    }
}

} // verus!
