//! Read-only summaries of the player's meters and of the progress of the
//! campaign.

use vstd::prelude::*;
use crate::change::{find_meter, meter_of, Component};
use crate::meter::{ActiveMeterIdentifier, ActiveMeterType, Meter, PassiveMeterType};
use crate::model::{equipped, StateView};
use crate::nearest::{best_held, best_insert_lt, best_into_value, best_is_empty, best_new, least};
use crate::state::{lemma_state_view, State};
use crate::levels::GoalType;
use crate::world::{GoalMeterInfo, World};

verus! {

broadcast use lemma_state_view;

#[derive(Clone, Copy, Debug, PartialEq, Eq, Structural)]
pub struct ActiveMeterInfo {
    pub typ: ActiveMeterType,
    pub identifier: ActiveMeterIdentifier,
    pub meter: Meter,
    pub is_selected: bool,
}

#[derive(Clone, Copy, Debug, PartialEq, Eq, Structural)]
pub struct PassiveMeterInfo {
    pub typ: PassiveMeterType,
    pub meter: Meter,
}

/// A cursor over the player's active meters, in slot order.
pub struct ActiveMeterInfoIter<'a> {
    components: &'a Vec<Component>,
    meters: &'a Vec<ActiveMeterType>,
    index: usize,
    selected_meter: Option<ActiveMeterType>,
}

/// A cursor over the player's passive meters, in list order.
pub struct PassiveMeterInfoIter<'a> {
    components: &'a Vec<Component>,
    meters: &'a Vec<PassiveMeterType>,
    index: usize,
    compass_meter: Meter,
}

/// The reading of the compass when nothing is in reach, and its maximum.
pub const MAX_DISTANCE: i32 = 40;

/// The least of the distances that are defined: a sequence that holds it,
/// or nothing if none is defined.
pub open spec fn closest(distances: Seq<Option<i32>>) -> Seq<i32>
    decreases distances.len(),
{
    if distances.len() == 0 {
        Seq::empty()
    } else {
        let front = closest(distances.drop_last());
        match distances.last() {
            Some(d) => least(front, d),
            None => front,
        }
    }
}

/// The compass shows the distance to the nearest reachable coordinate of
/// the objective; without one, the distance to the stairs; without that,
/// its maximum.
pub open spec fn compass_spec(world: &World) -> Meter {
    let to_goal = match world.goal {
        Some(g) => closest(g.distances@),
        None => Seq::empty(),
    };
    let value = if to_goal.len() > 0 {
        to_goal[0]
    } else {
        match world.stairs_distance {
            Some(d) => d,
            None => MAX_DISTANCE,
        }
    };
    Meter { value, max: MAX_DISTANCE }
}

/// Whether the player holds every passive meter of the list but the
/// compass, which is computed.
pub open spec fn furnished(passive: Seq<PassiveMeterType>, components: Seq<Component>) -> bool {
    forall|i: int|
        0 <= i < passive.len() && passive[i] != PassiveMeterType::Compass ==> meter_of(
            components,
            (#[trigger] passive[i]).typ_spec(),
        ) is Some
}

/// The summary of the active meter in slot `i`.
pub open spec fn active_info(
    active: Seq<ActiveMeterType>,
    selected: Option<ActiveMeterType>,
    components: Seq<Component>,
    i: int,
) -> ActiveMeterInfo {
    ActiveMeterInfo {
        typ: active[i],
        identifier: ActiveMeterIdentifier { index: i as usize },
        meter: meter_of(components, active[i].typ_spec()).unwrap(),
        is_selected: selected == Some(active[i]),
    }
}

/// The summary of the `i`-th passive meter.
pub open spec fn passive_info(
    passive: Seq<PassiveMeterType>,
    compass: Meter,
    components: Seq<Component>,
    i: int,
) -> PassiveMeterInfo {
    PassiveMeterInfo {
        typ: passive[i],
        meter: if passive[i] == PassiveMeterType::Compass {
            compass
        } else {
            meter_of(components, passive[i].typ_spec()).unwrap()
        },
    }
}

/// The reading of the compass.
pub fn compass_meter(world: &World) -> (m: Meter)
    ensures
        m == compass_spec(world),
{
    let mut nearest = best_new();
    match &world.goal {
        Some(goal) => {
            let mut i: usize = 0;
            while i < goal.distances.len()
                invariant
                    i <= goal.distances@.len(),
                    best_held(nearest) == closest(goal.distances@.take(i as int)),
                decreases goal.distances@.len() - i,
            {
                assert(goal.distances@.take(i + 1).drop_last() =~= goal.distances@.take(i as int));
                match goal.distances[i] {
                    Some(d) => {
                        best_insert_lt(&mut nearest, d);
                    },
                    None => {},
                }
                i += 1;
            }
            assert(goal.distances@.take(goal.distances@.len() as int) =~= goal.distances@);
        },
        None => {},
    }
    if best_is_empty(&nearest) {
        match world.stairs_distance {
            Some(d) => {
                best_insert_lt(&mut nearest, d);
            },
            None => {},
        }
    }
    let ghost held = best_held(nearest);
    let value = match best_into_value(nearest) {
        Some(d) => {
            assert(held[0] == seq![d][0]);
            d
        },
        None => MAX_DISTANCE,
    };
    Meter::new(value, MAX_DISTANCE)
}

impl<'a> ActiveMeterInfoIter<'a> {
    /// The slot the cursor looks at next.
    pub closed spec fn position(&self) -> int {
        self.index as int
    }

    pub closed spec fn active(&self) -> Seq<ActiveMeterType> {
        self.meters@
    }

    pub closed spec fn selected(&self) -> Option<ActiveMeterType> {
        self.selected_meter
    }

    pub closed spec fn components(&self) -> Seq<Component> {
        self.components@
    }

    pub closed spec fn wf(&self) -> bool {
        equipped(self.meters@, self.components@)
    }

    /// The summary of the next active meter: its kind, its slot, its meter
    /// and whether it is the selected one. `None` after the last slot.
    pub fn next(&mut self) -> (r: Option<ActiveMeterInfo>)
        requires
            old(self).wf(),
        ensures
            final(self).wf(),
            final(self).active() == old(self).active(),
            final(self).selected() == old(self).selected(),
            final(self).components() == old(self).components(),
            r == if old(self).position() < old(self).active().len() {
                Some(
                    active_info(
                        old(self).active(),
                        old(self).selected(),
                        old(self).components(),
                        old(self).position(),
                    ),
                )
            } else {
                None::<ActiveMeterInfo>
            },
            final(self).position() == if r is Some {
                old(self).position() + 1
            } else {
                old(self).position()
            },
    {
        if self.index >= self.meters.len() {
            return None;
        }
        let typ = self.meters[self.index];
        let meter = match find_meter(self.components, typ.typ()) {
            Some(m) => m,
            None => Meter { value: 0, max: 0 },
        };
        let is_selected = match self.selected_meter {
            Some(s) => s == typ,
            None => false,
        };
        let info = ActiveMeterInfo {
            typ,
            identifier: ActiveMeterIdentifier::from_index(self.index),
            meter,
            is_selected,
        };
        self.index = self.index + 1;
        Some(info)
    }
}

impl<'a> PassiveMeterInfoIter<'a> {
    /// The position in the list the cursor looks at next.
    pub closed spec fn position(&self) -> int {
        self.index as int
    }

    pub closed spec fn passive(&self) -> Seq<PassiveMeterType> {
        self.meters@
    }

    pub closed spec fn compass(&self) -> Meter {
        self.compass_meter
    }

    pub closed spec fn components(&self) -> Seq<Component> {
        self.components@
    }

    pub closed spec fn wf(&self) -> bool {
        furnished(self.meters@, self.components@)
    }

    /// The summary of the next passive meter: its kind and its meter, which
    /// for the compass is the computed reading. `None` after the last one.
    pub fn next(&mut self) -> (r: Option<PassiveMeterInfo>)
        requires
            old(self).wf(),
        ensures
            final(self).wf(),
            final(self).passive() == old(self).passive(),
            final(self).compass() == old(self).compass(),
            final(self).components() == old(self).components(),
            r == if old(self).position() < old(self).passive().len() {
                Some(
                    passive_info(
                        old(self).passive(),
                        old(self).compass(),
                        old(self).components(),
                        old(self).position(),
                    ),
                )
            } else {
                None::<PassiveMeterInfo>
            },
            final(self).position() == if r is Some {
                old(self).position() + 1
            } else {
                old(self).position()
            },
    {
        if self.index >= self.meters.len() {
            return None;
        }
        let typ = self.meters[self.index];
        let meter = match typ {
            PassiveMeterType::Compass => self.compass_meter,
            _ => match find_meter(self.components, typ.typ()) {
                Some(m) => m,
                None => Meter { value: 0, max: 0 },
            },
        };
        self.index = self.index + 1;
        Some(PassiveMeterInfo { typ, meter })
    }
}

impl StateView {
    /// How much of the campaign lies ahead: ten for every level from the
    /// current one on, out of ten for every level.
    pub open spec fn progress(self) -> Meter {
        Meter {
            value: ((self.levels.len() - self.level_index) * 10) as i32,
            max: (self.levels.len() * 10) as i32,
        }
    }
}

impl State {
    /// A cursor over the summaries of the player's active meters.
    pub fn player_active_meter_info<'a>(&'a self, world: &'a World) -> (it: ActiveMeterInfoIter<'a>)
        requires
            equipped(self@.active_meters, world.player_components@),
        ensures
            it.wf(),
            it.position() == 0,
            it.active() == self@.active_meters,
            it.selected() == self@.selected_meter,
            it.components() == world.player_components@,
    {
        ActiveMeterInfoIter {
            components: &world.player_components,
            meters: &self.active_meters,
            index: 0,
            selected_meter: self.selected_meter,
        }
    }

    /// Checks whether the player holds every passive meter of the list but
    /// the compass.
    #[verifier::loop_isolation(false)]
    pub fn furnishes(&self, world: &World) -> (b: bool)
        ensures
            b == furnished(self@.passive_meters, world.player_components@),
    {
        let mut i: usize = 0;
        while i < self.passive_meters.len()
            invariant
                i <= self.passive_meters@.len(),
                forall|j: int|
                    0 <= j < i && self.passive_meters@[j] != PassiveMeterType::Compass
                        ==> meter_of(
                        world.player_components@,
                        (#[trigger] self.passive_meters@[j]).typ_spec(),
                    ) is Some,
            decreases self.passive_meters@.len() - i,
        {
            let typ = self.passive_meters[i];
            match typ {
                PassiveMeterType::Compass => {},
                _ => {
                    if find_meter(&world.player_components, typ.typ()).is_none() {
                        assert(meter_of(
                            world.player_components@,
                            self.passive_meters@[i as int].typ_spec(),
                        ) is None);
                        return false;
                    }
                },
            }
            i += 1;
        }
        true
    }

    /// A cursor over the summaries of the player's passive meters.
    pub fn player_passive_meter_info<'a>(&'a self, world: &'a World) -> (it: PassiveMeterInfoIter<
        'a,
    >)
        requires
            furnished(self@.passive_meters, world.player_components@),
        ensures
            it.wf(),
            it.position() == 0,
            it.passive() == self@.passive_meters,
            it.compass() == compass_spec(world),
            it.components() == world.player_components@,
    {
        PassiveMeterInfoIter {
            components: &world.player_components,
            meters: &self.passive_meters,
            index: 0,
            compass_meter: compass_meter(world),
        }
    }

    /// The objective of the level and whether it is complete.
    pub fn goal_info(&self, world: &World) -> (r: Option<(GoalType, bool)>)
        ensures
            r == match world.goal {
                Some(g) => Some((g.typ, g.complete)),
                None => None,
            },
    {
        world.goal_info()
    }

    /// The meters of the objective of the level, in its order; none
    /// without an objective.
    pub fn with_goal_meters(&self, world: &World) -> (meters: Vec<GoalMeterInfo>)
        ensures
            meters@ == match world.goal {
                Some(g) => g.meters@,
                None => Seq::empty(),
            },
    {
        let mut meters: Vec<GoalMeterInfo> = Vec::new();
        match &world.goal {
            Some(goal) => {
                let mut i: usize = 0;
                while i < goal.meters.len()
                    invariant
                        i <= goal.meters@.len(),
                        meters@ == goal.meters@.take(i as int),
                    decreases goal.meters@.len() - i,
                {
                    meters.push(goal.meters[i]);
                    assert(goal.meters@.take(i + 1) =~= goal.meters@.take(i as int).push(
                        goal.meters@[i as int],
                    ));
                    i += 1;
                }
                assert(goal.meters@.take(goal.meters@.len() as int) =~= goal.meters@);
            },
            None => {},
        }
        meters
    }

    /// The overall progress of the campaign.
    pub fn overall_progress_meter(&self) -> (m: Meter)
        requires
            self@.wf(),
        ensures
            m == self@.progress(),
    {
        let count = self.levels.len();
        Meter { value: ((count - self.level_index) * 10) as i32, max: (count * 10) as i32 }
    }
}

} // verus!
