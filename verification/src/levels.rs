//! The campaign: a fixed sequence of level descriptors, planned once.

use vstd::prelude::*;
use crate::random::{pick, shuffle};

verus! {

#[derive(Clone, Copy, Debug, PartialEq, Eq, Structural)]
pub enum GoalType {
    Escape,
    KillEggs,
    KillBoss,
    ActivateBeacon,
}

#[derive(Clone, Copy, Debug, PartialEq, Eq, Structural)]
pub enum TerrainType {
    Empty,
    Dungeon,
}

#[derive(Clone, Copy, Debug, PartialEq, Eq, Structural)]
pub struct TerrainConfig {
    pub final_level: bool,
    pub goal_type: GoalType,
    pub level: i32,
}

#[derive(Clone, Copy, Debug, PartialEq, Eq, Structural)]
pub struct TerrainInfo {
    pub typ: TerrainType,
    pub config: TerrainConfig,
}

/// The number of levels of a campaign.
pub const NUM_LEVELS: usize = 6;

/// A pool of objectives for the levels before the last: one per level and
/// one to spare, none of them the escape, and each of the three other
/// objectives at least once.
pub open spec fn valid_pool(pool: Seq<GoalType>) -> bool {
    &&& pool.len() == NUM_LEVELS
    &&& forall|i: int| 0 <= i < pool.len() ==> pool[i] != GoalType::Escape
    &&& pool.contains(GoalType::KillEggs)
    &&& pool.contains(GoalType::KillBoss)
    &&& pool.contains(GoalType::ActivateBeacon)
}

/// The descriptor of level `level` when the objectives are taken from the
/// end of `pool`: the last level is the final one and asks for the escape.
pub open spec fn planned_level(pool: Seq<GoalType>, level: int) -> TerrainInfo {
    if level < NUM_LEVELS - 1 {
        TerrainInfo {
            typ: TerrainType::Dungeon,
            config: TerrainConfig {
                final_level: false,
                goal_type: pool[NUM_LEVELS - 1 - level],
                level: level as i32,
            },
        }
    } else {
        TerrainInfo {
            typ: TerrainType::Dungeon,
            config: TerrainConfig {
                final_level: true,
                goal_type: GoalType::Escape,
                level: (NUM_LEVELS - 1) as i32,
            },
        }
    }
}

/// The campaign planned from a pool of objectives.
pub open spec fn planned(pool: Seq<GoalType>) -> Seq<TerrainInfo> {
    Seq::new(NUM_LEVELS as nat, |level: int| planned_level(pool, level))
}

/// Draws the objective of one level that is not the last.
pub fn choose_goal_type(rng: &mut rand::rngs::StdRng) -> (g: GoalType)
    ensures
        g != GoalType::Escape,
{
    let mut choices: Vec<GoalType> = Vec::new();
    choices.push(GoalType::KillEggs);
    choices.push(GoalType::KillBoss);
    choices.push(GoalType::ActivateBeacon);
    match pick(&choices, rng) {
        Some(g) => g,
        None => GoalType::KillEggs,
    }
}

/// The campaign planned from a pool of objectives, or `None` if the pool
/// does not hold one objective per level.
///
/// The levels before the last take their objectives from the end of the
/// pool; the first objective of the pool is left over. The last level is
/// the final one and asks for the escape.
pub fn levels_from_pool(pool: &Vec<GoalType>) -> (r: Option<Vec<TerrainInfo>>)
    ensures
        r is Some <==> pool@.len() == NUM_LEVELS,
        r matches Some(levels) ==> levels@ == planned(pool@),
{
    if pool.len() != NUM_LEVELS {
        return None;
    }
    let mut levels: Vec<TerrainInfo> = Vec::new();
    let mut i: usize = 0;
    while i < NUM_LEVELS - 1
        invariant
            i <= NUM_LEVELS - 1,
            pool@.len() == NUM_LEVELS,
            levels@.len() == i,
            forall|k: int| 0 <= k < i ==> levels@[k] == planned_level(pool@, k),
        decreases NUM_LEVELS - 1 - i,
    {
        levels.push(
            TerrainInfo {
                typ: TerrainType::Dungeon,
                config: TerrainConfig {
                    final_level: false,
                    goal_type: pool[NUM_LEVELS - 1 - i],
                    level: i as i32,
                },
            },
        );
        i += 1;
    }
    levels.push(
        TerrainInfo {
            typ: TerrainType::Dungeon,
            config: TerrainConfig {
                final_level: true,
                goal_type: GoalType::Escape,
                level: (NUM_LEVELS - 1) as i32,
            },
        },
    );
    assert(levels@ =~= planned(pool@));
    Some(levels)
}

/// Plans a campaign.
///
/// The campaign has [`NUM_LEVELS`] levels, numbered from zero. The last one
/// is the final level and asks for the escape. The objectives of the others
/// are drawn from a shuffled pool that holds each of the other three
/// objectives at least once.
pub fn plan_levels(rng: &mut rand::rngs::StdRng) -> (levels: Vec<TerrainInfo>)
    ensures
        exists|pool: Seq<GoalType>| valid_pool(pool) && levels@ == planned(pool),
{
    broadcast use vstd::seq_lib::group_to_multiset_ensures;

    let mut goals: Vec<GoalType> = Vec::new();
    goals.push(GoalType::KillEggs);
    goals.push(GoalType::KillBoss);
    goals.push(GoalType::ActivateBeacon);
    while goals.len() < NUM_LEVELS
        invariant
            3 <= goals@.len() <= NUM_LEVELS,
            goals@[0] == GoalType::KillEggs,
            goals@[1] == GoalType::KillBoss,
            goals@[2] == GoalType::ActivateBeacon,
            forall|i: int| 0 <= i < goals@.len() ==> goals@[i] != GoalType::Escape,
        decreases NUM_LEVELS - goals@.len(),
    {
        let g = choose_goal_type(rng);
        goals.push(g);
    }
    let ghost drawn = goals@;
    shuffle(&mut goals, rng);
    let ghost pool = goals@;
    proof {
        assert(drawn.to_multiset().len() == drawn.len());
        assert(pool.to_multiset().len() == pool.len());
        assert(drawn.contains(drawn[0]) && drawn.contains(drawn[1]) && drawn.contains(drawn[2]));
        assert forall|i: int| 0 <= i < pool.len() implies pool[i] != GoalType::Escape by {
            assert(pool.contains(pool[i]));
            assert(pool.to_multiset().count(pool[i]) > 0);
            assert(drawn.contains(pool[i]));
        }
        assert(pool.len() == NUM_LEVELS);
        assert(drawn.to_multiset().count(GoalType::KillEggs) > 0);
        assert(drawn.to_multiset().count(GoalType::KillBoss) > 0);
        assert(drawn.to_multiset().count(GoalType::ActivateBeacon) > 0);
        assert(pool.contains(GoalType::KillEggs));
        assert(pool.contains(GoalType::KillBoss));
        assert(pool.contains(GoalType::ActivateBeacon));
        assert(valid_pool(pool));
    }
    match levels_from_pool(&goals) {
        Some(levels) => levels,
        None => Vec::new(),
    }
}

} // verus!
