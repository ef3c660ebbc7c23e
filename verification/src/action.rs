//! What the player can do in a turn. Each action either queues all of its
//! changes or raises an alert and queues nothing.

use vstd::prelude::*;
use crate::change::{find_meter, meter_of, Change, Component, Spawn, WAVE_RANGE};
use crate::coord::{CardinalDirection, Coord};
use crate::event::Alert;
use crate::meter::{Meter, MeterType};
use crate::queue::{MessageQueues, QueuesView};
use crate::world::World;

verus! {

/// The effects that leave the player in all four directions at once.
#[derive(Clone, Copy, Debug, PartialEq, Eq, Structural)]
pub enum Volley {
    Bullet,
    PushWave,
    MetabolWave,
}

/// The coordinate `steps` steps from `from` in `direction`.
pub open spec fn stepped(from: Coord, direction: CardinalDirection, steps: int) -> (int, int) {
    (from.x + steps * direction.offset().x, from.y + steps * direction.offset().y)
}

/// Whether the cell at a coordinate stops a walk: it is inside the map and
/// holds something solid that is not a door.
pub open spec fn blocks_walk(world: &World, at: (int, int)) -> bool {
    world.cell(at.0, at.1) matches Some(cell) && cell.is_solid()
}

/// Whether the cell at a coordinate stops a blink: it is inside the map and
/// holds a character or something solid that is not a door.
pub open spec fn blocks_blink(world: &World, at: (int, int)) -> bool {
    world.cell(at.0, at.1) matches Some(cell) && (cell.is_solid() || cell.has_npc())
}

/// Whether a rail gun shot passes through a coordinate: it is inside the
/// map and holds nothing solid.
pub open spec fn shot_passes(world: &World, at: (int, int)) -> bool {
    world.cell(at.0, at.1) matches Some(cell) && cell.solid_count == 0
}

/// How many more cells a shot at `at` can cross before it leaves the map.
pub open spec fn cells_ahead(world: &World, at: (int, int), direction: CardinalDirection) -> nat {
    if world.cell(at.0, at.1) is Some {
        match direction {
            CardinalDirection::North => (at.1 + 1) as nat,
            CardinalDirection::South => (world.size.height - at.1) as nat,
            CardinalDirection::West => (at.0 + 1) as nat,
            CardinalDirection::East => (world.size.width - at.0) as nat,
        }
    } else {
        0
    }
}

/// The segments of a rail gun shot that starts at `at`: one for every cell
/// in line up to, and without, the first that is solid or outside the map.
pub open spec fn rail_shots(world: &World, at: (int, int), direction: CardinalDirection) -> Seq<
    Change,
>
    decreases cells_ahead(world, at, direction),
{
    if shot_passes(world, at) {
        seq![
            Change::Spawn(
                Spawn::RailGunShot { at: Coord { x: at.0 as i32, y: at.1 as i32 }, direction },
            ),
        ] + rail_shots(
            world,
            (at.0 + direction.offset().x, at.1 + direction.offset().y),
            direction,
        )
    } else {
        Seq::empty()
    }
}

/// One effect of a volley.
pub open spec fn volley_spawn(kind: Volley, start: Coord, direction: CardinalDirection) -> Spawn {
    match kind {
        Volley::Bullet => Spawn::Bullet { start, direction },
        Volley::PushWave => Spawn::PushWave { start, direction, range: WAVE_RANGE },
        Volley::MetabolWave => Spawn::MetabolWave { start, direction, range: WAVE_RANGE },
    }
}

/// The four effects of a volley around `origin`: north, east, south, west,
/// each starting on the neighbouring cell.
pub open spec fn volley(kind: Volley, origin: Coord) -> Seq<Change> {
    Seq::new(
        4,
        |i: int|
            {
                let d = CardinalDirection::all_spec()[i];
                let at = stepped(origin, d, 1);
                Change::Spawn(volley_spawn(kind, Coord { x: at.0 as i32, y: at.1 as i32 }, d))
            },
    )
}

/// The meter with its value lowered by `cost`.
pub open spec fn spent(meter: Meter, cost: int) -> Meter {
    Meter { value: (meter.value - cost) as i32, max: meter.max }
}

/// The health meter after a medkit of strength `heal` was used.
pub open spec fn healed(health: Meter, heal: int) -> Meter {
    Meter {
        value: if health.value + heal <= health.max {
            (health.value + heal) as i32
        } else {
            health.max
        },
        max: health.max,
    }
}

/// The queue with `more` appended to its pending changes.
pub open spec fn queued(before: QueuesView, more: Seq<Change>) -> QueuesView {
    QueuesView { changes: before.changes + more, ..before }
}

/// What an action does to the queue: it appends all the changes of a
/// successful outcome and reports success, or it leaves the queue as it was
/// and reports the alert.
pub open spec fn settles(
    outcome: Result<Seq<Change>, Alert>,
    before: QueuesView,
    r: Result<(), Alert>,
    after: QueuesView,
) -> bool {
    match outcome {
        Ok(changes) => r is Ok && after == queued(before, changes),
        Err(alert) => r == Err::<(), Alert>(alert) && after == before,
    }
}

/// A walk is refused when the cell ahead holds something solid that is not
/// a door; otherwise it changes the player's position.
pub open spec fn walk_outcome(world: &World, direction: CardinalDirection) -> Result<
    Seq<Change>,
    Alert,
> {
    let next = stepped(world.player_coord, direction, 1);
    if blocks_walk(world, next) {
        Err(Alert::WalkIntoWall)
    } else {
        Ok(
            seq![
                Change::Insert(
                    world.player_id,
                    Component::Coord(Coord { x: next.0 as i32, y: next.1 as i32 }),
                ),
            ],
        )
    }
}

/// A blink is refused when the meter is empty or the cell two steps ahead
/// holds a character or something solid that is not a door; otherwise it
/// lowers the meter by two and changes the player's position.
pub open spec fn blink_outcome(world: &World, direction: CardinalDirection) -> Result<
    Seq<Change>,
    Alert,
> {
    let meter = meter_of(world.player_components@, MeterType::Blink).unwrap();
    let next = stepped(world.player_coord, direction, 2);
    if meter.value <= 0 {
        Err(Alert::NoBlink)
    } else if blocks_blink(world, next) {
        Err(Alert::BlinkIntoNonEmpty)
    } else {
        Ok(
            seq![
                Change::Insert(world.player_id, Component::Meter(MeterType::Blink, spent(meter, 2))),
                Change::Insert(
                    world.player_id,
                    Component::Coord(Coord { x: next.0 as i32, y: next.1 as i32 }),
                ),
            ],
        )
    }
}

/// A rail gun shot is refused when the meter is empty; otherwise it leaves
/// one segment on every cell in line up to the first that is solid or
/// outside the map, and lowers the meter by one.
pub open spec fn rail_gun_outcome(world: &World, direction: CardinalDirection) -> Result<
    Seq<Change>,
    Alert,
> {
    let meter = meter_of(world.player_components@, MeterType::RailGun).unwrap();
    if meter.value <= 0 {
        Err(Alert::NoAmmo)
    } else {
        Ok(
            rail_shots(world, stepped(world.player_coord, direction, 1), direction).push(
                Change::Insert(
                    world.player_id,
                    Component::Meter(MeterType::RailGun, spent(meter, 1)),
                ),
            ),
        )
    }
}

/// The gun is refused when the meter is empty; otherwise it fires four
/// bullets and then lowers the meter by one.
pub open spec fn gun_outcome(world: &World) -> Result<Seq<Change>, Alert> {
    let meter = meter_of(world.player_components@, MeterType::Gun).unwrap();
    if meter.value <= 0 {
        Err(Alert::NoAmmo)
    } else {
        Ok(
            volley(Volley::Bullet, world.player_coord).push(
                Change::Insert(world.player_id, Component::Meter(MeterType::Gun, spent(meter, 1))),
            ),
        )
    }
}

/// A wave is refused when its meter is empty; otherwise it lowers the meter
/// by one and then sends four waves.
pub open spec fn wave_outcome(world: &World, typ: MeterType, kind: Volley) -> Result<
    Seq<Change>,
    Alert,
> {
    let meter = meter_of(world.player_components@, typ).unwrap();
    if meter.value <= 0 {
        Err(Alert::NoAmmo)
    } else {
        Ok(
            seq![Change::Insert(world.player_id, Component::Meter(typ, spent(meter, 1)))] + volley(
                kind,
                world.player_coord,
            ),
        )
    }
}

/// The medkit is refused when its meter is empty; otherwise its meter drops
/// to `-1` and the health meter rises by what the medkit held, up to its
/// maximum.
pub open spec fn medkit_outcome(world: &World) -> Result<Seq<Change>, Alert> {
    let medkit = meter_of(world.player_components@, MeterType::Medkit).unwrap();
    let health = meter_of(world.player_components@, MeterType::Health).unwrap();
    if medkit.value <= 0 {
        Err(Alert::NoMedkit)
    } else {
        Ok(
            seq![
                Change::Insert(
                    world.player_id,
                    Component::Meter(MeterType::Medkit, Meter { value: -1i32, max: medkit.max }),
                ),
                Change::Insert(
                    world.player_id,
                    Component::Meter(MeterType::Health, healed(health, medkit.value as int)),
                ),
            ],
        )
    }
}

fn neighbour(from: Coord, direction: CardinalDirection, steps: i32) -> (c: Coord)
    requires
        0 <= steps <= 2,
        -1 <= from.x <= 0x4000_0001,
        -1 <= from.y <= 0x4000_0001,
    ensures
        (c.x as int, c.y as int) == stepped(from, direction, steps as int),
{
    let off = direction.coord();
    assert(steps * off.x == if steps == 0 {
        0
    } else if steps == 1 {
        off.x as int
    } else {
        2 * off.x
    }) by (nonlinear_arith)
        requires
            0 <= steps <= 2,
    ;
    assert(steps * off.y == if steps == 0 {
        0
    } else if steps == 1 {
        off.y as int
    } else {
        2 * off.y
    }) by (nonlinear_arith)
        requires
            0 <= steps <= 2,
    ;
    Coord { x: from.x + steps * off.x, y: from.y + steps * off.y }
}

/// Queues the four effects of a volley around the player.
fn fire_volley(kind: Volley, world: &World, messages: &mut MessageQueues)
    requires
        world.wf(),
    ensures
        final(messages)@ == queued(old(messages)@, volley(kind, world.player_coord)),
{
    let directions = CardinalDirection::all();
    let mut i: usize = 0;
    assert(old(messages)@.changes + volley(kind, world.player_coord).take(0)
        =~= old(messages)@.changes);
    while i < 4
        invariant
            i <= 4,
            world.wf(),
            directions@ == CardinalDirection::all_spec(),
            messages@ == queued(old(messages)@, volley(kind, world.player_coord).take(i as int)),
        decreases 4 - i,
    {
        let d = directions[i];
        let start = neighbour(world.player_coord, d, 1);
        let spawn = match kind {
            Volley::Bullet => Spawn::Bullet { start, direction: d },
            Volley::PushWave => Spawn::PushWave { start, direction: d, range: WAVE_RANGE },
            Volley::MetabolWave => Spawn::MetabolWave { start, direction: d, range: WAVE_RANGE },
        };
        messages.change(Change::Spawn(spawn));
        assert(messages@.changes =~= old(messages)@.changes + volley(
            kind,
            world.player_coord,
        ).take(i + 1));
        i += 1;
    }
    assert(volley(kind, world.player_coord).take(4) =~= volley(kind, world.player_coord));
}

/// Moves the player one step.
///
/// Raises `WalkIntoWall`, and queues nothing, when the cell ahead holds
/// something solid that is not a door; otherwise queues the new position.
pub fn walk(world: &World, direction: CardinalDirection, messages: &mut MessageQueues) -> (r: Result<
    (),
    Alert,
>)
    requires
        world.wf(),
    ensures
        settles(walk_outcome(world, direction), old(messages)@, r, final(messages)@),
{
    let next = neighbour(world.player_coord, direction, 1);
    match world.get(next) {
        Some(cell) => {
            if cell.solid_count > 0 && cell.door_count == 0 {
                return Err(Alert::WalkIntoWall);
            }
        },
        None => {},
    }
    messages.change(Change::Insert(world.player_id, Component::Coord(next)));
    assert(messages@.changes =~= old(messages)@.changes + seq![
        Change::Insert(world.player_id, Component::Coord(next)),
    ]);
    Ok(())
}

/// Teleports the player two steps.
///
/// Raises `NoBlink` when the blink meter is empty and `BlinkIntoNonEmpty`
/// when the target cell holds a character or something solid that is not a
/// door; either way nothing is queued. Otherwise queues the meter, two
/// lower, and the new position.
pub fn blink(world: &World, direction: CardinalDirection, messages: &mut MessageQueues) -> (r:
    Result<(), Alert>)
    requires
        world.wf(),
        meter_of(world.player_components@, MeterType::Blink) is Some,
    ensures
        settles(blink_outcome(world, direction), old(messages)@, r, final(messages)@),
{
    let meter = match find_meter(&world.player_components, MeterType::Blink) {
        Some(m) => m,
        None => {
            return Err(Alert::NoBlink);
        },
    };
    if meter.value <= 0 {
        return Err(Alert::NoBlink);
    }
    let next = neighbour(world.player_coord, direction, 2);
    match world.get(next) {
        Some(cell) => {
            if (cell.solid_count > 0 && cell.door_count == 0) || cell.npc_count > 0 {
                return Err(Alert::BlinkIntoNonEmpty);
            }
        },
        None => {},
    }
    let lowered = Meter { value: meter.value - 2, max: meter.max };
    messages.change(Change::Insert(world.player_id, Component::Meter(MeterType::Blink, lowered)));
    messages.change(Change::Insert(world.player_id, Component::Coord(next)));
    assert(messages@.changes =~= old(messages)@.changes + seq![
        Change::Insert(world.player_id, Component::Meter(MeterType::Blink, lowered)),
        Change::Insert(world.player_id, Component::Coord(next)),
    ]);
    Ok(())
}

/// Fires the rail gun along a line.
///
/// Raises `NoAmmo`, and queues nothing, when the meter is empty. Otherwise
/// queues one shot segment for every cell in line up to the first that is
/// solid or outside the map, and then the meter, one lower.
pub fn use_rail_gun(world: &World, direction: CardinalDirection, messages: &mut MessageQueues) -> (r:
    Result<(), Alert>)
    requires
        world.wf(),
        meter_of(world.player_components@, MeterType::RailGun) is Some,
    ensures
        settles(rail_gun_outcome(world, direction), old(messages)@, r, final(messages)@),
{
    let meter = match find_meter(&world.player_components, MeterType::RailGun) {
        Some(m) => m,
        None => {
            return Err(Alert::NoAmmo);
        },
    };
    if meter.value <= 0 {
        return Err(Alert::NoAmmo);
    }
    let start = neighbour(world.player_coord, direction, 1);
    let mut at = start;
    let ghost all = rail_shots(world, (start.x as int, start.y as int), direction);
    let ghost done: Seq<Change> = Seq::empty();
    assert(old(messages)@.changes + done =~= old(messages)@.changes);
    assert(done + all =~= all);
    loop
        invariant_except_break
            world.wf(),
            -1 <= at.x <= 0x4000_0000,
            -1 <= at.y <= 0x4000_0000,
            messages@ == queued(old(messages)@, done),
            done + rail_shots(world, (at.x as int, at.y as int), direction) == all,
        ensures
            messages@ == queued(old(messages)@, all),
        decreases cells_ahead(world, (at.x as int, at.y as int), direction),
    {
        let passes = match world.get(at) {
            Some(cell) => cell.solid_count == 0,
            None => false,
        };
        if !passes {
            assert(done + Seq::<Change>::empty() =~= done);
            break ;
        }
        let shot = Change::Spawn(Spawn::RailGunShot { at, direction });
        messages.change(shot);
        let next = neighbour(at, direction, 1);
        proof {
            let rest = rail_shots(world, (next.x as int, next.y as int), direction);
            assert(done.push(shot) + rest =~= done + (seq![shot] + rest));
            assert(messages@.changes =~= old(messages)@.changes + done.push(shot));
            done = done.push(shot);
        }
        at = next;
    }
    let lowered = Meter { value: meter.value - 1, max: meter.max };
    messages.change(Change::Insert(world.player_id, Component::Meter(MeterType::RailGun, lowered)));
    assert(messages@.changes =~= old(messages)@.changes + all.push(
        Change::Insert(world.player_id, Component::Meter(MeterType::RailGun, lowered)),
    ));
    Ok(())
}

/// Fires the gun in all four directions.
///
/// Raises `NoAmmo`, and queues nothing, when the meter is empty. Otherwise
/// queues four bullets and then the meter, one lower.
pub fn use_gun(world: &World, messages: &mut MessageQueues) -> (r: Result<(), Alert>)
    requires
        world.wf(),
        meter_of(world.player_components@, MeterType::Gun) is Some,
    ensures
        settles(gun_outcome(world), old(messages)@, r, final(messages)@),
{
    let meter = match find_meter(&world.player_components, MeterType::Gun) {
        Some(m) => m,
        None => {
            return Err(Alert::NoAmmo);
        },
    };
    if meter.value <= 0 {
        return Err(Alert::NoAmmo);
    }
    fire_volley(Volley::Bullet, world, messages);
    let lowered = Meter { value: meter.value - 1, max: meter.max };
    messages.change(Change::Insert(world.player_id, Component::Meter(MeterType::Gun, lowered)));
    assert(messages@.changes =~= old(messages)@.changes + volley(
        Volley::Bullet,
        world.player_coord,
    ).push(Change::Insert(world.player_id, Component::Meter(MeterType::Gun, lowered))));
    Ok(())
}

/// Sends a wave in all four directions at the cost of one unit of the
/// meter `typ`.
fn use_wave(typ: MeterType, kind: Volley, world: &World, messages: &mut MessageQueues) -> (r: Result<
    (),
    Alert,
>)
    requires
        world.wf(),
        meter_of(world.player_components@, typ) is Some,
    ensures
        settles(wave_outcome(world, typ, kind), old(messages)@, r, final(messages)@),
{
    let meter = match find_meter(&world.player_components, typ) {
        Some(m) => m,
        None => {
            return Err(Alert::NoAmmo);
        },
    };
    if meter.value <= 0 {
        return Err(Alert::NoAmmo);
    }
    let lowered = Meter { value: meter.value - 1, max: meter.max };
    messages.change(Change::Insert(world.player_id, Component::Meter(typ, lowered)));
    fire_volley(kind, world, messages);
    assert(messages@.changes =~= old(messages)@.changes + (seq![
        Change::Insert(world.player_id, Component::Meter(typ, lowered)),
    ] + volley(kind, world.player_coord)));
    Ok(())
}

/// Pushes nearby enemies away.
///
/// Raises `NoAmmo`, and queues nothing, when the meter is empty. Otherwise
/// queues the meter, one lower, and then four push waves.
pub fn use_push(world: &World, messages: &mut MessageQueues) -> (r: Result<(), Alert>)
    requires
        world.wf(),
        meter_of(world.player_components@, MeterType::Push) is Some,
    ensures
        settles(
            wave_outcome(world, MeterType::Push, Volley::PushWave),
            old(messages)@,
            r,
            final(messages)@,
        ),
{
    use_wave(MeterType::Push, Volley::PushWave, world, messages)
}

/// Delays the transformations of nearby enemies.
///
/// Raises `NoAmmo`, and queues nothing, when the meter is empty. Otherwise
/// queues the meter, one lower, and then four metabol waves.
pub fn use_metabol(world: &World, messages: &mut MessageQueues) -> (r: Result<(), Alert>)
    requires
        world.wf(),
        meter_of(world.player_components@, MeterType::Metabol) is Some,
    ensures
        settles(
            wave_outcome(world, MeterType::Metabol, Volley::MetabolWave),
            old(messages)@,
            r,
            final(messages)@,
        ),
{
    use_wave(MeterType::Metabol, Volley::MetabolWave, world, messages)
}

/// Heals the player with the medkit.
///
/// Raises `NoMedkit`, and queues nothing, when the meter is empty.
/// Otherwise queues the medkit meter with the value `-1`, and the health
/// meter raised by what the medkit held, up to its maximum.
pub fn use_medkit(world: &World, messages: &mut MessageQueues) -> (r: Result<(), Alert>)
    requires
        world.wf(),
        meter_of(world.player_components@, MeterType::Medkit) is Some,
        meter_of(world.player_components@, MeterType::Health) is Some,
    ensures
        settles(medkit_outcome(world), old(messages)@, r, final(messages)@),
{
    let medkit = match find_meter(&world.player_components, MeterType::Medkit) {
        Some(m) => m,
        None => {
            return Err(Alert::NoMedkit);
        },
    };
    let health = match find_meter(&world.player_components, MeterType::Health) {
        Some(m) => m,
        None => {
            return Err(Alert::NoMedkit);
        },
    };
    if medkit.value <= 0 {
        return Err(Alert::NoMedkit);
    }
    let used = Meter { value: -1, max: medkit.max };
    let sum: i64 = health.value as i64 + medkit.value as i64;
    let raised = Meter {
        value: if sum <= health.max as i64 {
            sum as i32
        } else {
            health.max
        },
        max: health.max,
    };
    messages.change(Change::Insert(world.player_id, Component::Meter(MeterType::Medkit, used)));
    messages.change(Change::Insert(world.player_id, Component::Meter(MeterType::Health, raised)));
    assert(messages@.changes =~= old(messages)@.changes + seq![
        Change::Insert(world.player_id, Component::Meter(MeterType::Medkit, used)),
        Change::Insert(world.player_id, Component::Meter(MeterType::Health, raised)),
    ]);
    Ok(())
}

} // verus!
