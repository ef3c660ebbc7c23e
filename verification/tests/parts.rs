use meters::action::{blink, use_gun, use_medkit, use_metabol, use_push, use_rail_gun, walk};
use meters::change::{
    contains_type, find_meter, Change, Component, ComponentType, NpcInfo,
    TileInfo,
};
use meters::coord::{CardinalDirection, Coord, Size};
use meters::event::{merge, surface, Alert, Event, ExternalEvent};
use meters::ledger::{process_turn_events, PlayerTurnEvent, PlayerTurnEventEntry};
use meters::campaign::{first_choices, unequipped_meters};
use meters::levels::{choose_goal_type, levels_from_pool, plan_levels, GoalType, TerrainType};
use meters::meter::{
    ActiveMeterIdentifier, ActiveMeterType, ActiveOrPassive, Meter, MeterRule, MeterType,
    PassiveMeterType, PeriodicChange, Rules,
};
use meters::npc::{muster, order_by_distance};
use meters::queue::{Animation, MessageQueues, MessageQueuesSwap};
use meters::terrain::size;
use meters::visibility::{Sighting, Visibility, VisibilityCell, VisibilityGrid};
use meters::world::{Npc, SpatialCell, World};
use rand::SeedableRng;

#[test]
fn directions_step_one_cell() {
    assert_eq!(CardinalDirection::North.coord(), Coord::new(0, -1));
    assert_eq!(CardinalDirection::East.coord(), Coord::new(1, 0));
    assert_eq!(CardinalDirection::South.coord(), Coord::new(0, 1));
    assert_eq!(CardinalDirection::West.coord(), Coord::new(-1, 0));
    assert_eq!(
        CardinalDirection::all(),
        vec![
            CardinalDirection::North,
            CardinalDirection::East,
            CardinalDirection::South,
            CardinalDirection::West,
        ]
    );
}

#[test]
fn sizes_are_bounded() {
    assert_eq!(Size::new(3, 2), Some(Size { width: 3, height: 2 }));
    assert_eq!(Size::new(0, 0), Some(Size { width: 0, height: 0 }));
    assert_eq!(Size::new(0x4000_0000, 3), Some(Size { width: 0x4000_0000, height: 3 }));
    assert_eq!(Size::new(0x4000_0001, 1), None);
    assert_eq!(Size::new(1, 0x4000_0001), None);
    assert_eq!(Size::new(0x1_0000, 0x1_0000), None);
    assert_eq!(Size::new(0xffff, 0x1_0001), Some(Size { width: 0xffff, height: 0x1_0001 }));
    let s = Size::new(3, 2).unwrap();
    assert!(s.is_valid(Coord::new(0, 0)));
    assert!(s.is_valid(Coord::new(2, 1)));
    assert!(!s.is_valid(Coord::new(3, 1)));
    assert!(!s.is_valid(Coord::new(2, 2)));
    assert!(!s.is_valid(Coord::new(-1, 0)));
    assert!(!s.is_valid(Coord::new(0, -1)));
}

#[test]
fn empty_level_is_twenty_nine_cells_square() {
    assert_eq!(size(), Size { width: 29, height: 29 });
}

#[test]
fn meters_are_clamped() {
    assert_eq!(Meter::new(2, 5).adjusted(2), Meter::new(4, 5));
    assert_eq!(Meter::new(2, 5).adjusted(3), Meter::new(5, 5));
    assert_eq!(Meter::new(2, 5).adjusted(9), Meter::new(5, 5));
    assert_eq!(Meter::new(2, 5).adjusted(-2), Meter::new(0, 5));
    assert_eq!(Meter::new(2, 5).adjusted(-7), Meter::new(0, 5));
    assert_eq!(Meter::new(-1, 5).adjusted(1), Meter::new(0, 5));
    assert_eq!(Meter::new(9, 5).adjusted(0), Meter::new(5, 5));
    assert_eq!(Meter::new(3, -2).adjusted(1), Meter::new(0, -2));
    assert_eq!(Meter::new(i32::MAX, i32::MAX).adjusted(i32::MAX), Meter::new(i32::MAX, i32::MAX));
    assert_eq!(Meter::new(i32::MIN, 7).adjusted(i32::MIN), Meter::new(0, 7));
}

#[test]
fn meter_kinds_are_active_or_passive() {
    let all = MeterType::all();
    assert_eq!(all.len(), 10);
    for (i, typ) in all.iter().enumerate() {
        assert_eq!(typ.index(), i);
        match typ.active_or_passive() {
            ActiveOrPassive::Active(a) => {
                assert_eq!(a.typ(), *typ);
                assert_eq!(typ.active(), Some(a));
                assert_eq!(typ.passive(), None);
            }
            ActiveOrPassive::Passive(p) => {
                assert_eq!(p.typ(), *typ);
                assert_eq!(typ.passive(), Some(p));
                assert_eq!(typ.active(), None);
            }
        }
    }
    assert_eq!(MeterType::RailGun.active(), Some(ActiveMeterType::RailGun));
    assert_eq!(MeterType::Kevlar.passive(), Some(PassiveMeterType::Kevlar));
    assert_eq!(MeterType::Compass.active(), None);
    assert_eq!(ActiveMeterIdentifier::from_index(4).to_index(), 4);
}

#[test]
fn rule_table_holds_one_rule_per_kind() {
    let plain = MeterRule { initial: Meter::new(1, 1), periodic: None };
    let special = MeterRule {
        initial: Meter::new(2, 9),
        periodic: Some(PeriodicChange { turns: 3, change: -1 }),
    };
    let mut rules = Rules::uniform(plain);
    assert_eq!(rules.len(), 10);
    rules.set(MeterType::Kevlar, special);
    for typ in MeterType::all() {
        let expected = if typ == MeterType::Kevlar { special } else { plain };
        assert_eq!(rules.get(typ), expected);
    }
    let copy = rules.duplicate();
    assert_eq!(copy.get(MeterType::Kevlar), special);
    assert_eq!(copy.get(MeterType::Gun), plain);
}

#[test]
fn first_terminal_then_first_alert() {
    let a = Some(Event::alert(Alert::NoAmmo));
    let b = Some(Event::alert(Alert::NoBlink));
    let win = Some(Event::External(ExternalEvent::Win));
    let lose = Some(Event::External(ExternalEvent::Lose));
    let up = Some(Event::External(ExternalEvent::Ascend(true)));
    assert_eq!(merge(None, None), None);
    assert_eq!(merge(None, a), a);
    assert_eq!(merge(a, None), a);
    assert_eq!(merge(a, b), a);
    assert_eq!(merge(a, win), win);
    assert_eq!(merge(win, a), win);
    assert_eq!(merge(win, lose), win);
    assert_eq!(merge(up, win), up);
    assert_eq!(merge(None, lose), lose);
    assert!(Event::External(ExternalEvent::Ascend(false)).is_terminal());
    assert!(ExternalEvent::Lose.is_terminal());
    assert!(!ExternalEvent::Alert(Alert::NoSuchMeter).is_terminal());
    assert_eq!(surface(win), Some(ExternalEvent::Win));
    assert_eq!(surface(None), None);
    assert_eq!(
        Event::alert(Alert::WalkIntoWall).external(),
        ExternalEvent::Alert(Alert::WalkIntoWall)
    );
}

#[test]
fn components_are_found_by_type() {
    let components = vec![
        Component::Coord(Coord::new(1, 2)),
        Component::Meter(MeterType::Gun, Meter::new(1, 2)),
        Component::Countdown(3),
        Component::Meter(MeterType::Gun, Meter::new(9, 9)),
        Component::Other(7, -1),
    ];
    assert_eq!(find_meter(&components, MeterType::Gun), Some(Meter::new(1, 2)));
    assert_eq!(find_meter(&components, MeterType::Push), None);
    assert!(contains_type(&components, ComponentType::Coord));
    assert!(contains_type(&components, ComponentType::Meter(MeterType::Gun)));
    assert!(contains_type(&components, ComponentType::Other(7)));
    assert!(!contains_type(&components, ComponentType::Other(8)));
    assert!(!contains_type(&components, ComponentType::Meter(MeterType::Blink)));
    assert!(!contains_type(&components, ComponentType::DelayedTransform));
    assert_eq!(
        Component::Npc(NpcInfo { active: true, fast: false, mobile: true }).typ(),
        ComponentType::Npc
    );
    assert_eq!(
        Component::TileInfo(TileInfo { kind: 1, countdown: None }).typ(),
        ComponentType::TileInfo
    );
    assert_eq!(Component::Countdown(2).typ(), ComponentType::Countdown);
}

#[test]
fn queues_keep_commit_order_and_drain_into_the_batch() {
    let mut queues = MessageQueues::new();
    let mut swap = MessageQueuesSwap::new();
    let first = Change::Insert(1, Component::Countdown(1));
    let second = Change::Remove(1, ComponentType::Countdown);
    queues.change(first);
    queues.change(second);
    queues.animate(Animation { channel: Some(2), token: 5 });
    queues.player_moved_to = Some(Coord::new(1, 1));
    let copy = queues.duplicate();
    assert_eq!(copy.changes, vec![first, second]);
    assert_eq!(copy.animations, vec![Animation { channel: Some(2), token: 5 }]);
    assert_eq!(copy.player_moved_to, Some(Coord::new(1, 1)));
    queues.drain_changes(&mut swap);
    assert!(queues.changes.is_empty());
    assert_eq!(swap.changes, vec![first, second]);
    assert_eq!(queues.animations.len(), 1);
    queues.drain_animations(&mut swap);
    assert!(queues.animations.is_empty());
    assert_eq!(swap.animations, vec![Animation { channel: Some(2), token: 5 }]);
    assert_eq!(queues.player_moved_to, Some(Coord::new(1, 1)));
}

#[test]
fn world_is_validated() {
    let size = Size::new(3, 2).unwrap();
    assert!(World::new(size, 0, 1, Coord::new(3, 0)).is_none());
    assert!(World::new(Size { width: 0x4000_0001, height: 1 }, 0, 1, Coord::new(0, 0)).is_none());
    let mut w = World::new(size, 4, 1, Coord::new(2, 1)).unwrap();
    assert_eq!(w.count, 4);
    assert_eq!(w.cells.len(), 6);
    assert!(w.validate());
    let cell = SpatialCell { solid_count: 2, door_count: 1, npc_count: 3 };
    assert!(w.set(Coord::new(1, 1), cell));
    assert!(!w.set(Coord::new(1, 2), cell));
    assert_eq!(w.get(Coord::new(1, 1)), Some(cell));
    assert_eq!(w.cells[4], cell);
    assert_eq!(
        w.get(Coord::new(0, 0)),
        Some(SpatialCell { solid_count: 0, door_count: 0, npc_count: 0 })
    );
    assert_eq!(w.get(Coord::new(3, 0)), None);
    assert_eq!(w.get(Coord::new(0, -1)), None);
    w.npcs.push(Npc {
        id: 2,
        coord: Coord::new(0, 2),
        info: NpcInfo { active: false, fast: false, mobile: false },
        countdown: None,
        tile_info: None,
        transform: None,
        distance: None,
    });
    assert!(!w.validate());
    w.npcs[0].coord = Coord::new(0, 1);
    assert!(w.validate());
    w.player_coord = Coord::new(-1, 0);
    assert!(!w.validate());
}

#[test]
fn memory_grid_cells_are_found_by_coordinate() {
    let size = Size::new(3, 2).unwrap();
    let mut grid = VisibilityGrid::new(size);
    assert_eq!(grid.size(), size);
    for y in 0..2 {
        for x in 0..3 {
            let cell = grid.get(Coord::new(x, y)).unwrap();
            assert_eq!(cell.last_updated, 0);
            assert!(cell.tiles.is_empty());
        }
    }
    let tile = TileInfo { kind: 9, countdown: Some(2) };
    assert!(grid.put(Coord::new(2, 0), VisibilityCell { tiles: vec![tile], last_updated: 8 }));
    assert!(!grid.put(Coord::new(0, 2), VisibilityCell { tiles: vec![tile], last_updated: 8 }));
    assert_eq!(grid.get(Coord::new(2, 0)).unwrap().last_updated, 8);
    assert_eq!(grid.get(Coord::new(2, 0)).unwrap().tiles, vec![tile]);
    assert_eq!(grid.get(Coord::new(0, 1)).unwrap().last_updated, 0);
    assert_eq!(grid.get(Coord::new(1, 0)).unwrap().last_updated, 0);
    assert!(grid.get(Coord::new(3, 0)).is_none());
    assert!(grid.get(Coord::new(-1, 1)).is_none());

    let copy = grid.duplicate();
    assert_eq!(copy.size(), size);
    assert_eq!(copy.get(Coord::new(2, 0)).unwrap().tiles, vec![tile]);
    assert_eq!(copy.get(Coord::new(2, 0)).unwrap().last_updated, 8);
    assert_eq!(copy.get(Coord::new(1, 1)).unwrap().last_updated, 0);

    let mut cells = grid.iter(8);
    assert_eq!(cells.next().map(|(_, c, v)| (c, v)), Some((Coord::new(2, 0), Visibility::Visible)));
    assert!(cells.next().is_none());
    assert!(cells.next().is_none());
    let mut cells = grid.iter(9);
    assert_eq!(
        cells.next().map(|(_, c, v)| (c, v)),
        Some((Coord::new(2, 0), Visibility::Remembered))
    );

    grid.clear();
    assert_eq!(grid.size(), size);
    assert_eq!(grid.get(Coord::new(2, 0)).unwrap().last_updated, 0);
    assert!(grid.get(Coord::new(2, 0)).unwrap().tiles.is_empty());
    assert!(grid.iter(8).next().is_none());
    assert!(VisibilityGrid::new(Size::new(0, 5).unwrap()).iter(1).next().is_none());
}

#[test]
fn reconciling_keeps_fresher_memory() {
    let mut grid = VisibilityGrid::new(Size::new(2, 2).unwrap());
    let old = TileInfo { kind: 1, countdown: None };
    let new = TileInfo { kind: 2, countdown: None };
    grid.reconcile(
        5,
        &vec![Sighting { coord: Coord::new(1, 1), freshness: 5, tiles: vec![old] }],
    );
    assert_eq!(grid.get(Coord::new(1, 1)).unwrap().tiles, vec![old]);
    grid.reconcile(
        6,
        &vec![Sighting { coord: Coord::new(1, 1), freshness: 5, tiles: vec![new] }],
    );
    assert_eq!(grid.get(Coord::new(1, 1)).unwrap().tiles, vec![old]);
    assert_eq!(grid.get(Coord::new(1, 1)).unwrap().last_updated, 6);
    grid.reconcile(
        7,
        &vec![
            Sighting { coord: Coord::new(1, 1), freshness: 7, tiles: vec![new] },
            Sighting { coord: Coord::new(1, 1), freshness: 9, tiles: vec![old, new] },
            Sighting { coord: Coord::new(2, 1), freshness: 9, tiles: vec![old] },
        ],
    );
    assert_eq!(grid.get(Coord::new(1, 1)).unwrap().tiles, vec![old, new]);
    assert_eq!(grid.get(Coord::new(1, 1)).unwrap().last_updated, 7);
    assert_eq!(grid.get(Coord::new(0, 1)).unwrap().last_updated, 0);
}

#[test]
fn ledger_counts_down_and_fires() {
    let components = vec![
        Component::Meter(MeterType::Gun, Meter::new(1, 3)),
        Component::Meter(MeterType::Stamina, Meter::new(2, 8)),
    ];
    let gun = PlayerTurnEvent::ChangeActiveMeter(ActiveMeterType::Gun, 1);
    let stamina = PlayerTurnEvent::ChangePassiveMeter(PassiveMeterType::Stamina, 7);
    let mut entries = vec![
        PlayerTurnEventEntry { event: gun, remaining: 0, reset: 3 },
        PlayerTurnEventEntry { event: gun, remaining: 2, reset: 3 },
        PlayerTurnEventEntry { event: stamina, remaining: 0, reset: 0 },
        PlayerTurnEventEntry { event: gun, remaining: 1, reset: 1 },
    ];
    let mut queues = MessageQueues::new();
    queues.change(Change::Remove(5, ComponentType::Npc));
    process_turn_events(&mut entries, 1, &components, &mut queues);
    assert_eq!(
        entries.iter().map(|e| e.remaining).collect::<Vec<_>>(),
        vec![3, 1, 0, 0]
    );
    assert_eq!(entries.iter().map(|e| e.reset).collect::<Vec<_>>(), vec![3, 3, 0, 1]);
    assert_eq!(
        queues.changes,
        vec![
            Change::Remove(5, ComponentType::Npc),
            Change::Insert(1, Component::Meter(MeterType::Gun, Meter::new(2, 3))),
            Change::Insert(1, Component::Meter(MeterType::Stamina, Meter::new(8, 8))),
        ]
    );
}

fn npc(id: u64, distance: Option<u32>) -> Npc {
    Npc {
        id,
        coord: Coord::new(0, 0),
        info: NpcInfo { active: true, fast: false, mobile: true },
        countdown: None,
        tile_info: None,
        transform: None,
        distance,
    }
}

#[test]
fn ordering_by_distance_is_stable() {
    let roll = vec![
        npc(1, Some(5)),
        npc(2, None),
        npc(3, Some(5)),
        npc(4, Some(0)),
        npc(5, None),
        npc(6, Some(u32::MAX)),
        npc(7, Some(5)),
        npc(8, Some(0)),
    ];
    assert_eq!(order_by_distance(&roll), vec![4, 8, 1, 3, 7, 6, 2, 5]);
    assert_eq!(order_by_distance(&vec![]), Vec::<u64>::new());
    assert_eq!(order_by_distance(&vec![npc(9, None)]), vec![9]);
}

#[test]
fn muster_wakes_and_calls_the_roll() {
    let size = Size::new(3, 3).unwrap();
    let mut w = World::new(size, 4, 1, Coord::new(1, 1)).unwrap();
    let mut grid = VisibilityGrid::new(size);
    grid.reconcile(
        4,
        &vec![
            Sighting { coord: Coord::new(0, 0), freshness: 1, tiles: vec![] },
            Sighting { coord: Coord::new(2, 2), freshness: 1, tiles: vec![] },
        ],
    );
    grid.reconcile(3, &vec![Sighting { coord: Coord::new(1, 0), freshness: 1, tiles: vec![] }]);
    let make = |id: u64, x: i32, y: i32, active: bool, fast: bool, mobile: bool| Npc {
        id,
        coord: Coord::new(x, y),
        info: NpcInfo { active, fast, mobile },
        countdown: None,
        tile_info: None,
        transform: None,
        distance: None,
    };
    w.npcs = vec![
        make(10, 0, 0, false, false, true),
        make(11, 1, 0, false, false, true),
        make(12, 2, 2, false, true, true),
        make(13, 2, 1, true, true, false),
        make(14, 2, 0, true, false, true),
    ];
    let mut queues = MessageQueues::new();
    let (roll, any_fast) = muster(&w, &grid, false, &mut queues);
    assert!(any_fast);
    assert_eq!(roll.iter().map(|n| n.id).collect::<Vec<_>>(), vec![10, 12, 14]);
    assert_eq!(
        queues.changes,
        vec![
            Change::Insert(10, Component::Npc(NpcInfo { active: true, fast: false, mobile: true })),
            Change::Insert(12, Component::Npc(NpcInfo { active: true, fast: true, mobile: true })),
        ]
    );
    let mut queues = MessageQueues::new();
    let (roll, any_fast) = muster(&w, &grid, true, &mut queues);
    assert!(any_fast);
    assert_eq!(roll.iter().map(|n| n.id).collect::<Vec<_>>(), vec![12]);
    assert_eq!(
        queues.changes,
        vec![Change::Insert(
            12,
            Component::Npc(NpcInfo { active: true, fast: true, mobile: true })
        )]
    );
    w.npcs.truncate(2);
    let mut queues = MessageQueues::new();
    let (_, any_fast) = muster(&w, &grid, false, &mut queues);
    assert!(!any_fast);
}

#[test]
fn actions_queue_all_or_nothing() {
    let size = Size::new(5, 5).unwrap();
    let mut w = World::new(size, 1, 1, Coord::new(2, 2)).unwrap();
    w.player_components = vec![
        Component::Meter(MeterType::Gun, Meter::new(0, 1)),
        Component::Meter(MeterType::Push, Meter::new(0, 1)),
        Component::Meter(MeterType::Metabol, Meter::new(-3, 1)),
        Component::Meter(MeterType::Medkit, Meter::new(0, 1)),
        Component::Meter(MeterType::Health, Meter::new(1, 1)),
        Component::Meter(MeterType::Blink, Meter::new(1, 4)),
        Component::Meter(MeterType::RailGun, Meter::new(0, 1)),
    ];
    let mut queues = MessageQueues::new();
    assert_eq!(use_gun(&w, &mut queues), Err(Alert::NoAmmo));
    assert_eq!(use_push(&w, &mut queues), Err(Alert::NoAmmo));
    assert_eq!(use_metabol(&w, &mut queues), Err(Alert::NoAmmo));
    assert_eq!(use_medkit(&w, &mut queues), Err(Alert::NoMedkit));
    assert_eq!(use_rail_gun(&w, CardinalDirection::East, &mut queues), Err(Alert::NoAmmo));
    assert!(queues.changes.is_empty());
    w.set(Coord::new(2, 3), SpatialCell { solid_count: 1, door_count: 0, npc_count: 0 });
    assert_eq!(walk(&w, CardinalDirection::South, &mut queues), Err(Alert::WalkIntoWall));
    w.set(Coord::new(2, 4), SpatialCell { solid_count: 3, door_count: 0, npc_count: 0 });
    assert_eq!(
        blink(&w, CardinalDirection::South, &mut queues),
        Err(Alert::BlinkIntoNonEmpty)
    );
    assert!(queues.changes.is_empty());
    w.set(Coord::new(2, 4), SpatialCell { solid_count: 3, door_count: 1, npc_count: 0 });
    assert_eq!(blink(&w, CardinalDirection::South, &mut queues), Ok(()));
    assert_eq!(
        queues.changes,
        vec![
            Change::Insert(1, Component::Meter(MeterType::Blink, Meter::new(-1, 4))),
            Change::Insert(1, Component::Coord(Coord::new(2, 4))),
        ]
    );
    assert_eq!(walk(&w, CardinalDirection::West, &mut queues), Ok(()));
    assert_eq!(
        queues.changes[2],
        Change::Insert(1, Component::Coord(Coord::new(1, 2)))
    );
    w.player_coord = Coord::new(4, 4);
    let mut queues = MessageQueues::new();
    assert_eq!(blink(&w, CardinalDirection::East, &mut queues), Ok(()));
    assert_eq!(
        queues.changes[1],
        Change::Insert(1, Component::Coord(Coord::new(6, 4)))
    );
}

#[test]
fn campaign_plan_depends_on_the_generator_only_for_the_objectives() {
    for seed in 0..30u64 {
        let mut rng = rand::rngs::StdRng::seed_from_u64(seed);
        let goal = choose_goal_type(&mut rng);
        assert_ne!(goal, GoalType::Escape);
        let levels = plan_levels(&mut rng);
        assert_eq!(levels.len(), 6);
        assert_eq!(levels[5].config.goal_type, GoalType::Escape);
        assert!(levels[5].config.final_level);
        assert_eq!(levels[5].config.level, 5);
        for i in 0..5 {
            assert_eq!(levels[i].config.level, i as i32);
            assert!(!levels[i].config.final_level);
            assert_ne!(levels[i].config.goal_type, GoalType::Escape);
        }
    }
}

#[test]
fn levels_take_their_objectives_from_the_end_of_the_pool() {
    let pool = vec![
        GoalType::KillEggs,
        GoalType::KillBoss,
        GoalType::ActivateBeacon,
        GoalType::KillEggs,
        GoalType::KillEggs,
        GoalType::ActivateBeacon,
    ];
    let levels = levels_from_pool(&pool).unwrap();
    let goals: Vec<GoalType> = levels.iter().map(|l| l.config.goal_type).collect();
    assert_eq!(
        goals,
        vec![
            GoalType::ActivateBeacon,
            GoalType::KillEggs,
            GoalType::KillEggs,
            GoalType::ActivateBeacon,
            GoalType::KillBoss,
            GoalType::Escape,
        ]
    );
    for (i, level) in levels.iter().enumerate() {
        assert_eq!(level.typ, TerrainType::Dungeon);
        assert_eq!(level.config.level, i as i32);
        assert_eq!(level.config.final_level, i == 5);
    }
    assert!(levels_from_pool(&pool[..5].to_vec()).is_none());
    assert!(levels_from_pool(&vec![]).is_none());
    let mut longer = pool.clone();
    longer.push(GoalType::KillBoss);
    assert!(levels_from_pool(&longer).is_none());
}

#[test]
fn unequipped_kinds_come_in_index_order() {
    let components = vec![
        Component::Meter(MeterType::Health, Meter::new(1, 1)),
        Component::Coord(Coord::new(0, 0)),
        Component::Meter(MeterType::Gun, Meter::new(1, 1)),
        Component::Meter(MeterType::Blink, Meter::new(0, 0)),
    ];
    assert_eq!(
        unequipped_meters(&components),
        vec![
            MeterType::Medkit,
            MeterType::Metabol,
            MeterType::Push,
            MeterType::Stamina,
            MeterType::Kevlar,
            MeterType::RailGun,
            MeterType::Compass,
        ]
    );
    assert_eq!(unequipped_meters(&vec![]), MeterType::all());
}

#[test]
fn at_most_three_kinds_are_offered() {
    let order = vec![MeterType::Push, MeterType::Gun, MeterType::Compass, MeterType::Blink];
    assert_eq!(
        first_choices(&order),
        vec![MeterType::Push, MeterType::Gun, MeterType::Compass]
    );
    assert_eq!(first_choices(&order[..3].to_vec()), order[..3].to_vec());
    assert_eq!(first_choices(&vec![MeterType::Kevlar]), vec![MeterType::Kevlar]);
    assert!(first_choices(&vec![]).is_empty());
}
