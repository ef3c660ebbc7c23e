use meters::change::{Change, Component};
use meters::coord::{Coord, Size};
use meters::info::{compass_meter, ActiveMeterInfo, PassiveMeterInfo};
use meters::ledger::{PlayerTurnEvent, PlayerTurnEventEntry};
use meters::levels::{GoalType, TerrainType, NUM_LEVELS};
use meters::meter::{
    ActiveMeterIdentifier, ActiveMeterType, GoalMeterType, Meter, MeterRule, MeterType,
    PassiveMeterType, PeriodicChange, Rules,
};
use meters::protocol::{Fault, Reply, Request, Stage, TurnState};
use meters::state::State;
use meters::visibility::{Sighting, Visibility};
use meters::world::{Goal, GoalMeterInfo, World};

const PLAYER: u64 = 1;

fn rules() -> Rules {
    let mut rules = Rules::uniform(MeterRule { initial: Meter::new(3, 3), periodic: None });
    rules.set(
        MeterType::Stamina,
        MeterRule {
            initial: Meter::new(2, 4),
            periodic: Some(PeriodicChange { turns: 1, change: 1 }),
        },
    );
    rules.set(
        MeterType::Medkit,
        MeterRule {
            initial: Meter::new(0, 6),
            periodic: Some(PeriodicChange { turns: 4, change: 2 }),
        },
    );
    rules.set(
        MeterType::Blink,
        MeterRule {
            initial: Meter::new(5, 5),
            periodic: Some(PeriodicChange { turns: 0, change: 1 }),
        },
    );
    rules
}

fn world(width: u32, height: u32, id: u64, x: i32, y: i32) -> World {
    World::new(Size::new(width, height).unwrap(), 1, id, Coord::new(x, y)).unwrap()
}

fn meter(typ: MeterType, value: i32, max: i32) -> Component {
    Component::Meter(typ, Meter::new(value, max))
}

fn all_but(missing: &[MeterType]) -> Vec<Component> {
    MeterType::all()
        .into_iter()
        .filter(|t| !missing.contains(t))
        .map(|t| meter(t, 1, 2))
        .collect()
}

/// Enters the first level with a player that lacks only `grant`.
fn entered(grant: MeterType) -> (State, World) {
    let mut state = State::new(11, rules());
    let mut w = world(4, 3, PLAYER, 2, 1);
    w.player_components = all_but(&[grant]);
    w.player_components.insert(0, Component::Coord(Coord::new(2, 1)));
    assert!(matches!(state.start(), Request::Generate(_)));
    assert_eq!(state.resume(&w, Reply::Generated), Request::Populate);
    for change in state.batch().clone() {
        match change {
            Change::Insert(id, component) => {
                assert_eq!(id, PLAYER);
                w.player_components.push(component);
            }
            _ => unreachable!(),
        }
    }
    assert_eq!(
        state.resume(&w, Reply::Populated),
        Request::RefreshDistances(Coord::new(2, 1))
    );
    assert_eq!(state.resume(&w, Reply::DistancesRefreshed), Request::Done(None));
    (state, w)
}

#[test]
fn new_engine_has_drawn_nothing() {
    let state = State::new(17, rules());
    assert_eq!(state.rng_seed(), 17);
    assert_eq!(state.stage(), Stage::Boot);
    assert_eq!(state.turn(), TurnState::Player);
    assert_eq!(state.level_index(), 0);
    assert_eq!(state.selected_meter_type(), None);
    assert!(state.levels().is_empty());
    assert!(state.messages().changes.is_empty());
    assert!(state.messages().animations.is_empty());
    assert!(state.active_meters().is_empty());
    assert!(state.passive_meters().is_empty());
    assert!(state.player_turn_events().is_empty());
    assert_eq!(state.overall_progress_meter(), Meter::new(0, 0));
}

#[test]
fn engines_of_one_seed_plan_one_campaign() {
    for seed in 0..5 {
        let mut a = State::new(seed, rules());
        let mut b = State::new(seed, rules());
        assert_eq!(a.start(), b.start());
        assert_eq!(a.levels(), b.levels());
    }
}

#[test]
fn start_plans_the_campaign() {
    for seed in 0..20 {
        let mut state = State::new(seed, rules());
        let first = state.start();
        assert_eq!(state.stage(), Stage::Generating { first: true, upgrade: None });
        assert_eq!(state.level_index(), 0);
        let levels = state.levels();
        assert_eq!(first, Request::Generate(levels[0]));
        assert_eq!(levels.len(), NUM_LEVELS);
        assert_eq!(levels.len(), 6);
        let mut kinds = Vec::new();
        for (i, level) in levels.iter().enumerate() {
            assert_eq!(level.typ, TerrainType::Dungeon);
            assert_eq!(level.config.level, i as i32);
            if i == 5 {
                assert!(level.config.final_level);
                assert_eq!(level.config.goal_type, GoalType::Escape);
            } else {
                assert!(!level.config.final_level);
                assert_ne!(level.config.goal_type, GoalType::Escape);
                if !kinds.contains(&level.config.goal_type) {
                    kinds.push(level.config.goal_type);
                }
            }
        }
        assert!(kinds.len() >= 2);
    }
}

#[test]
fn first_level_grants_the_missing_meter() {
    let (state, w) = entered(MeterType::Stamina);
    assert_eq!(state.stage(), Stage::Ready);
    assert_eq!(state.turn(), TurnState::Player);
    assert!(state.batch().is_empty());
    assert_eq!(
        w.player_components.last(),
        Some(&Component::Meter(MeterType::Stamina, Meter::new(2, 4)))
    );
    assert_eq!(state.messages().player_moved_to, Some(Coord::new(2, 1)));
    assert_eq!(state.visibility_grid().size(), w.size);
    assert_eq!(
        state.active_meters(),
        &vec![
            ActiveMeterType::Gun,
            ActiveMeterType::Medkit,
            ActiveMeterType::Metabol,
            ActiveMeterType::Push,
            ActiveMeterType::RailGun,
            ActiveMeterType::Blink,
        ]
    );
    assert_eq!(
        state.passive_meters(),
        &vec![
            PassiveMeterType::Health,
            PassiveMeterType::Kevlar,
            PassiveMeterType::Compass,
            PassiveMeterType::Stamina,
        ]
    );
    assert_eq!(
        state.player_turn_events(),
        &vec![
            PlayerTurnEventEntry {
                event: PlayerTurnEvent::ChangeActiveMeter(ActiveMeterType::Medkit, 2),
                remaining: 4,
                reset: 4,
            },
            PlayerTurnEventEntry {
                event: PlayerTurnEvent::ChangeActiveMeter(ActiveMeterType::Blink, 1),
                remaining: 0,
                reset: 0,
            },
            PlayerTurnEventEntry {
                event: PlayerTurnEvent::ChangePassiveMeter(PassiveMeterType::Stamina, 1),
                remaining: 1,
                reset: 1,
            },
        ]
    );
    let mut cells = state.visible_cells(&w);
    assert!(cells.next().is_none());
}

#[test]
fn first_level_grants_one_of_the_missing_meters() {
    for seed in 0..10 {
        let mut state = State::new(seed, rules());
        let mut w = world(4, 3, PLAYER, 2, 1);
        w.player_components = all_but(&[MeterType::Gun, MeterType::Kevlar, MeterType::Push]);
        state.start();
        assert_eq!(state.resume(&w, Reply::Generated), Request::Populate);
        let batch = state.batch().clone();
        assert_eq!(batch.len(), 1);
        let granted = [
            Change::Insert(PLAYER, meter(MeterType::Gun, 3, 3)),
            Change::Insert(PLAYER, meter(MeterType::Kevlar, 3, 3)),
            Change::Insert(PLAYER, meter(MeterType::Push, 3, 3)),
        ];
        assert!(granted.contains(&batch[0]));
        assert_eq!(state.stage(), Stage::Populating { first: true });
    }
}

#[test]
fn nothing_to_grant_is_a_fault() {
    let mut state = State::new(3, rules());
    let mut w = world(4, 3, PLAYER, 2, 1);
    w.player_components = all_but(&[]);
    state.start();
    assert_eq!(
        state.resume(&w, Reply::Generated),
        Request::Fault(Fault::NoMeterToGrant)
    );
    assert_eq!(state.stage(), Stage::Boot);
    assert!(state.batch().is_empty());
}

#[test]
fn next_level_takes_everything_along_but_the_position() {
    let (mut state, old) = entered(MeterType::Blink);
    assert!(state.fits(&old));
    let mut script_sightings = vec![Sighting { coord: Coord::new(0, 0), freshness: 1, tiles: vec![] }];
    let first = state.tick(&old, None);
    assert_eq!(first, Request::Observe(Coord::new(2, 1)));
    assert_eq!(state.resume(&old, Reply::Sighted(&script_sightings)), Request::Done(None));
    assert_eq!(state.visibility_grid().get(Coord::new(0, 0)).unwrap().last_updated, 1);

    let request = state.switch_levels_no_upgrade(&old);
    assert_eq!(request, Request::Generate(state.levels()[1]));
    assert_eq!(state.level_index(), 1);
    let mut next = world(5, 5, 9, 4, 4);
    next.count = 1;
    next.player_components = vec![Component::Coord(Coord::new(4, 4))];
    assert_eq!(state.resume(&next, Reply::Generated), Request::Populate);
    let expected: Vec<Change> = old
        .player_components
        .iter()
        .filter(|c| !matches!(c, Component::Coord(_)))
        .map(|c| Change::Insert(9, *c))
        .collect();
    assert_eq!(expected.len(), old.player_components.len() - 1);
    assert_eq!(state.batch(), &expected);
    for change in expected {
        if let Change::Insert(_, component) = change {
            next.player_components.push(component);
        }
    }
    assert_eq!(state.resume(&next, Reply::Populated), Request::Observe(Coord::new(4, 4)));
    assert!(state.batch().is_empty());
    assert_eq!(state.turn(), TurnState::Player);
    assert_eq!(state.visibility_grid().size(), next.size);
    assert_eq!(state.visibility_grid().get(Coord::new(0, 0)).unwrap().last_updated, 0);
    script_sightings = vec![Sighting { coord: Coord::new(4, 4), freshness: 1, tiles: vec![] }];
    assert_eq!(
        state.resume(&next, Reply::Sighted(&script_sightings)),
        Request::RefreshDistances(Coord::new(4, 4))
    );
    assert_eq!(state.resume(&next, Reply::DistancesRefreshed), Request::Done(None));
    assert_eq!(state.stage(), Stage::Ready);
    assert_eq!(state.messages().player_moved_to, Some(Coord::new(4, 4)));
    let mut cells = state.visible_cells(&next);
    let (_, coord, visibility) = cells.next().unwrap();
    assert_eq!(coord, Coord::new(4, 4));
    assert_eq!(visibility, Visibility::Visible);
    assert!(cells.next().is_none());
    assert!(state.fits(&next));
}

#[test]
fn upgrade_is_granted_once() {
    let mut state = State::new(5, rules());
    let mut w = world(4, 3, PLAYER, 2, 1);
    w.player_components = all_but(&[MeterType::Gun, MeterType::Medkit, MeterType::Stamina]);
    state.start();
    state.resume(&w, Reply::Generated);
    let granted = match state.batch()[0] {
        Change::Insert(_, component) => component,
        _ => unreachable!(),
    };
    w.player_components.push(granted);
    state.resume(&w, Reply::Populated);
    state.resume(&w, Reply::DistancesRefreshed);
    let held_before = w.player_components.len();
    let upgrade = if granted == meter(MeterType::Medkit, 0, 6) {
        MeterType::Stamina
    } else {
        MeterType::Medkit
    };
    let ledger_before = state.player_turn_events().len();
    let active_before = state.active_meters().len();
    let passive_before = state.passive_meters().len();

    assert!(matches!(state.switch_levels_upgrade(&w, upgrade), Request::Generate(_)));
    let next = world(4, 3, 2, 0, 0);
    assert_eq!(state.resume(&next, Reply::Generated), Request::Populate);
    assert_eq!(state.batch().len(), held_before + 1);
    let initial = if upgrade == MeterType::Medkit {
        Meter::new(0, 6)
    } else {
        Meter::new(2, 4)
    };
    assert_eq!(
        state.batch().last(),
        Some(&Change::Insert(2, Component::Meter(upgrade, initial)))
    );
    assert_eq!(state.player_turn_events().len(), ledger_before + 1);
    let entry = *state.player_turn_events().last().unwrap();
    if upgrade == MeterType::Medkit {
        assert_eq!(state.active_meters().len(), active_before + 1);
        assert_eq!(state.active_meters().last(), Some(&ActiveMeterType::Medkit));
        assert_eq!(
            entry,
            PlayerTurnEventEntry::full(
                PlayerTurnEvent::ChangeActiveMeter(ActiveMeterType::Medkit, 2),
                4
            )
        );
    } else {
        assert_eq!(state.passive_meters().len(), passive_before + 1);
        assert_eq!(state.passive_meters().last(), Some(&PassiveMeterType::Stamina));
        assert_eq!(
            entry,
            PlayerTurnEventEntry::full(
                PlayerTurnEvent::ChangePassiveMeter(PassiveMeterType::Stamina, 1),
                1
            )
        );
    }
}

#[test]
fn upgrade_that_is_held_already_is_not_granted() {
    let (mut state, old) = entered(MeterType::Blink);
    let ledger_before = state.player_turn_events().len();
    let active_before = state.active_meters().clone();
    state.switch_levels_upgrade(&old, MeterType::Blink);
    let next = world(4, 3, 2, 0, 0);
    assert_eq!(state.resume(&next, Reply::Generated), Request::Populate);
    assert_eq!(state.batch().len(), old.player_components.len() - 1);
    assert_eq!(state.player_turn_events().len(), ledger_before);
    assert_eq!(state.active_meters(), &active_before);

    let (mut state, mut old) = entered(MeterType::Blink);
    old.player_components.retain(|c| *c != meter(MeterType::Gun, 1, 2));
    state.switch_levels_upgrade(&old, MeterType::Gun);
    let mut next = world(4, 3, 2, 0, 0);
    next.player_components = vec![meter(MeterType::Gun, 9, 9)];
    assert_eq!(state.resume(&next, Reply::Generated), Request::Populate);
    assert_eq!(state.batch().len(), old.player_components.len() - 1);
}

#[test]
fn campaign_ends_after_the_last_level() {
    let (mut state, w) = entered(MeterType::Blink);
    for level in 1..6 {
        assert_eq!(state.overall_progress_meter(), Meter::new((7 - level) * 10, 60));
        assert!(matches!(state.switch_levels_no_upgrade(&w), Request::Generate(_)));
        assert_eq!(state.level_index(), level as usize);
        assert_eq!(
            state.switch_levels_no_upgrade(&w),
            Request::Fault(Fault::OutOfTurn)
        );
        state.resume(&w, Reply::Generated);
        state.resume(&w, Reply::Populated);
        state.resume(&w, Reply::Sighted(&vec![]));
        assert_eq!(state.resume(&w, Reply::DistancesRefreshed), Request::Done(None));
    }
    assert_eq!(state.overall_progress_meter(), Meter::new(10, 60));
    assert!(state.levels()[state.level_index()].config.final_level);
    assert_eq!(
        state.switch_levels_no_upgrade(&w),
        Request::Fault(Fault::NoNextLevel)
    );
    assert_eq!(state.level_index(), 5);
    assert_eq!(state.stage(), Stage::Ready);
}

#[test]
fn upgrade_choices_are_up_to_three_missing_kinds() {
    let (mut state, mut w) = entered(MeterType::Blink);
    let missing = [
        MeterType::Gun,
        MeterType::Kevlar,
        MeterType::Push,
        MeterType::Compass,
        MeterType::Health,
    ];
    w.player_components = all_but(&missing);
    for _ in 0..10 {
        let choices = state.upgrade_choices(&w);
        assert_eq!(choices.len(), 3);
        for (i, choice) in choices.iter().enumerate() {
            assert!(missing.contains(choice));
            assert!(!choices[..i].contains(choice));
        }
    }
    w.player_components = all_but(&[MeterType::Gun, MeterType::Kevlar]);
    let mut choices = state.upgrade_choices(&w);
    choices.sort_by_key(|t| t.index());
    assert_eq!(choices, vec![MeterType::Gun, MeterType::Kevlar]);
    w.player_components = all_but(&[]);
    assert!(state.upgrade_choices(&w).is_empty());
}

#[test]
fn compass_points_at_the_nearest_goal() {
    let mut w = world(4, 3, PLAYER, 2, 1);
    assert_eq!(compass_meter(&w), Meter::new(40, 40));
    w.stairs_distance = Some(12);
    assert_eq!(compass_meter(&w), Meter::new(12, 40));
    w.goal = Some(Goal {
        typ: GoalType::KillEggs,
        complete: false,
        distances: vec![None, Some(7), Some(3), Some(9), None],
        meters: vec![],
    });
    assert_eq!(compass_meter(&w), Meter::new(3, 40));
    w.goal = Some(Goal {
        typ: GoalType::KillEggs,
        complete: false,
        distances: vec![None, None],
        meters: vec![],
    });
    assert_eq!(compass_meter(&w), Meter::new(12, 40));
    w.goal = Some(Goal {
        typ: GoalType::KillEggs,
        complete: false,
        distances: vec![Some(55)],
        meters: vec![],
    });
    assert_eq!(compass_meter(&w), Meter::new(55, 40));
    w.stairs_distance = None;
    w.goal = Some(Goal { typ: GoalType::KillEggs, complete: false, distances: vec![], meters: vec![] });
    assert_eq!(compass_meter(&w), Meter::new(40, 40));
}

#[test]
fn meter_summaries_follow_the_lists() {
    let (mut state, mut w) = entered(MeterType::Stamina);
    w.stairs_distance = Some(4);
    let mut infos = Vec::new();
    let mut cursor = state.player_active_meter_info(&w);
    while let Some(info) = cursor.next() {
        infos.push(info);
    }
    assert_eq!(infos.len(), 6);
    assert_eq!(
        infos[1],
        ActiveMeterInfo {
            typ: ActiveMeterType::Medkit,
            identifier: ActiveMeterIdentifier::from_index(1),
            meter: Meter::new(1, 2),
            is_selected: false,
        }
    );
    assert_eq!(infos[5].identifier.to_index(), 5);

    let mut passive = Vec::new();
    let mut cursor = state.player_passive_meter_info(&w);
    while let Some(info) = cursor.next() {
        passive.push(info);
    }
    assert_eq!(
        passive,
        vec![
            PassiveMeterInfo { typ: PassiveMeterType::Health, meter: Meter::new(1, 2) },
            PassiveMeterInfo { typ: PassiveMeterType::Kevlar, meter: Meter::new(1, 2) },
            PassiveMeterInfo { typ: PassiveMeterType::Compass, meter: Meter::new(4, 40) },
            PassiveMeterInfo { typ: PassiveMeterType::Stamina, meter: Meter::new(2, 4) },
        ]
    );

    assert!(state.fits(&w));
    let select = meters::event::Input::ActiveMeterSelect(ActiveMeterIdentifier::from_index(5));
    state.tick(&w, Some(select));
    state.resume(&w, Reply::Sighted(&vec![]));
    let mut cursor = state.player_active_meter_info(&w);
    let mut selected = Vec::new();
    while let Some(info) = cursor.next() {
        selected.push(info.is_selected);
    }
    assert_eq!(selected, vec![false, false, false, false, false, true]);
}

#[test]
fn goal_summaries_come_from_the_world() {
    let (state, mut w) = entered(MeterType::Stamina);
    assert_eq!(state.goal_info(&w), None);
    assert!(state.with_goal_meters(&w).is_empty());
    let boss = GoalMeterInfo { typ: GoalMeterType::BossHealth, meter: Meter::new(3, 9) };
    let egg = GoalMeterInfo { typ: GoalMeterType::SuperEggHealth, meter: Meter::new(1, 2) };
    w.goal = Some(Goal {
        typ: GoalType::KillBoss,
        complete: true,
        distances: vec![],
        meters: vec![boss, egg],
    });
    assert_eq!(state.goal_info(&w), Some((GoalType::KillBoss, true)));
    assert_eq!(w.goal_info(), Some((GoalType::KillBoss, true)));
    assert_eq!(state.with_goal_meters(&w), vec![boss, egg]);
}

#[test]
fn world_must_fit_the_state() {
    let (state, mut w) = entered(MeterType::Stamina);
    assert!(state.fits(&w));
    assert!(state.equips(&w));
    assert!(state.furnishes(&w));
    assert!(state.supports_ledger(&w));
    let other = world(5, 3, PLAYER, 2, 1);
    assert!(!state.fits(&other));
    let kept = w.player_components.clone();
    w.player_components.retain(|c| *c != meter(MeterType::Health, 1, 2));
    assert!(!state.fits(&w));
    assert!(!state.equips(&w));
    assert!(!state.furnishes(&w));
    assert!(state.supports_ledger(&w));
    w.player_components = kept.clone();
    w.player_components.retain(|c| *c != meter(MeterType::Gun, 1, 2));
    assert!(!state.fits(&w));
    w.player_components = kept.clone();
    w.player_components.retain(|c| *c != meter(MeterType::Stamina, 2, 4));
    assert!(!state.fits(&w));
    assert!(state.equips(&w));
    assert!(!state.supports_ledger(&w));
    assert!(!state.furnishes(&w));
    w.player_components = kept;
    assert!(state.fits(&w));
    w.cells.pop();
    assert!(!state.fits(&w));
    let boot = State::new(1, rules());
    assert!(boot.fits(&other));
}
