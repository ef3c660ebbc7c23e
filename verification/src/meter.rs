//! Meters: bounded counters attached to the player, their kinds, and the
//! table of per-kind rules.

use vstd::prelude::*;
use crate::vecs::copy_vec;

verus! {

/// A counter with an upper bound.
#[derive(Clone, Copy, Debug, PartialEq, Eq, Structural)]
pub struct Meter {
    pub value: i32,
    pub max: i32,
}

#[derive(Clone, Copy, Debug, PartialEq, Eq, Structural)]
pub enum MeterType {
    Gun,
    Medkit,
    Metabol,
    Push,
    Health,
    Stamina,
    Kevlar,
    RailGun,
    Blink,
    Compass,
}

/// The meters the player triggers by selecting them.
#[derive(Clone, Copy, Debug, PartialEq, Eq, Structural)]
pub enum ActiveMeterType {
    Gun,
    Medkit,
    Metabol,
    Push,
    RailGun,
    Blink,
}

/// The meters that only change as a side effect of play.
#[derive(Clone, Copy, Debug, PartialEq, Eq, Structural)]
pub enum PassiveMeterType {
    Health,
    Stamina,
    Kevlar,
    Compass,
}

#[derive(Clone, Copy, Debug, PartialEq, Eq, Structural)]
pub enum ActiveOrPassive {
    Active(ActiveMeterType),
    Passive(PassiveMeterType),
}

#[derive(Clone, Copy, Debug, PartialEq, Eq, Structural)]
pub enum GoalMeterType {
    BossHealth,
    DistanceToExit,
    SuperEggHealth,
}

/// The slot of an active meter in the player's list of active meters.
#[derive(Clone, Copy, Debug, PartialEq, Eq, Structural)]
pub struct ActiveMeterIdentifier {
    pub index: usize,
}

/// A recurring meter change: `change` is applied every `turns` + 1 resolved
/// player turns.
#[derive(Clone, Copy, Debug, PartialEq, Eq, Structural)]
pub struct PeriodicChange {
    pub turns: u32,
    pub change: i32,
}

/// The number of meter kinds.
pub const NUM_METER_TYPES: usize = 10;

/// `value + change` clamped to `[0, max]`; `0` when `max` is negative.
pub open spec fn clamped(value: int, change: int, max: int) -> int {
    let raised = if value + change <= max {
        value + change
    } else {
        max
    };
    if raised >= 0 {
        raised
    } else {
        0
    }
}

impl Meter {
    pub fn new(value: i32, max: i32) -> (m: Meter)
        ensures
            m == (Meter { value, max }),
    {
        Meter { value, max }
    }

    /// The meter after `change` is added to its value and the sum is clamped
    /// to `[0, max]`.
    pub fn adjusted(self, change: i32) -> (m: Meter)
        ensures
            m.max == self.max,
            m.value == clamped(self.value as int, change as int, self.max as int),
    {
        let sum: i64 = self.value as i64 + change as i64;
        let raised: i64 = if sum <= self.max as i64 {
            sum
        } else {
            self.max as i64
        };
        let value: i64 = if raised >= 0 {
            raised
        } else {
            0
        };
        Meter { value: value as i32, max: self.max }
    }
}

impl MeterType {
    /// Position of the kind in [`MeterType::all_spec`].
    pub open spec fn index_spec(self) -> int {
        match self {
            MeterType::Gun => 0,
            MeterType::Medkit => 1,
            MeterType::Metabol => 2,
            MeterType::Push => 3,
            MeterType::Health => 4,
            MeterType::Stamina => 5,
            MeterType::Kevlar => 6,
            MeterType::RailGun => 7,
            MeterType::Blink => 8,
            MeterType::Compass => 9,
        }
    }

    pub open spec fn all_spec() -> Seq<MeterType> {
        seq![
            MeterType::Gun,
            MeterType::Medkit,
            MeterType::Metabol,
            MeterType::Push,
            MeterType::Health,
            MeterType::Stamina,
            MeterType::Kevlar,
            MeterType::RailGun,
            MeterType::Blink,
            MeterType::Compass,
        ]
    }

    pub open spec fn active_or_passive_spec(self) -> ActiveOrPassive {
        match self {
            MeterType::Gun => ActiveOrPassive::Active(ActiveMeterType::Gun),
            MeterType::Medkit => ActiveOrPassive::Active(ActiveMeterType::Medkit),
            MeterType::Metabol => ActiveOrPassive::Active(ActiveMeterType::Metabol),
            MeterType::Push => ActiveOrPassive::Active(ActiveMeterType::Push),
            MeterType::RailGun => ActiveOrPassive::Active(ActiveMeterType::RailGun),
            MeterType::Blink => ActiveOrPassive::Active(ActiveMeterType::Blink),
            MeterType::Health => ActiveOrPassive::Passive(PassiveMeterType::Health),
            MeterType::Stamina => ActiveOrPassive::Passive(PassiveMeterType::Stamina),
            MeterType::Kevlar => ActiveOrPassive::Passive(PassiveMeterType::Kevlar),
            MeterType::Compass => ActiveOrPassive::Passive(PassiveMeterType::Compass),
        }
    }

    pub fn index(self) -> (i: usize)
        ensures
            i == self.index_spec(),
            i < NUM_METER_TYPES,
    {
        match self {
            MeterType::Gun => 0,
            MeterType::Medkit => 1,
            MeterType::Metabol => 2,
            MeterType::Push => 3,
            MeterType::Health => 4,
            MeterType::Stamina => 5,
            MeterType::Kevlar => 6,
            MeterType::RailGun => 7,
            MeterType::Blink => 8,
            MeterType::Compass => 9,
        }
    }

    /// Every meter kind, in index order.
    pub fn all() -> (v: Vec<MeterType>)
        ensures
            v@ == Self::all_spec(),
    {
        let mut v: Vec<MeterType> = Vec::new();
        v.push(MeterType::Gun);
        v.push(MeterType::Medkit);
        v.push(MeterType::Metabol);
        v.push(MeterType::Push);
        v.push(MeterType::Health);
        v.push(MeterType::Stamina);
        v.push(MeterType::Kevlar);
        v.push(MeterType::RailGun);
        v.push(MeterType::Blink);
        v.push(MeterType::Compass);
        assert(v@ =~= Self::all_spec());
        v
    }

    pub fn active_or_passive(self) -> (r: ActiveOrPassive)
        ensures
            r == self.active_or_passive_spec(),
    {
        match self {
            MeterType::Gun => ActiveOrPassive::Active(ActiveMeterType::Gun),
            MeterType::Medkit => ActiveOrPassive::Active(ActiveMeterType::Medkit),
            MeterType::Metabol => ActiveOrPassive::Active(ActiveMeterType::Metabol),
            MeterType::Push => ActiveOrPassive::Active(ActiveMeterType::Push),
            MeterType::RailGun => ActiveOrPassive::Active(ActiveMeterType::RailGun),
            MeterType::Blink => ActiveOrPassive::Active(ActiveMeterType::Blink),
            MeterType::Health => ActiveOrPassive::Passive(PassiveMeterType::Health),
            MeterType::Stamina => ActiveOrPassive::Passive(PassiveMeterType::Stamina),
            MeterType::Kevlar => ActiveOrPassive::Passive(PassiveMeterType::Kevlar),
            MeterType::Compass => ActiveOrPassive::Passive(PassiveMeterType::Compass),
        }
    }

    /// The active kind of this meter, if it is one.
    pub fn active(self) -> (r: Option<ActiveMeterType>)
        ensures
            r == match self.active_or_passive_spec() {
                ActiveOrPassive::Active(a) => Some(a),
                ActiveOrPassive::Passive(_) => None,
            },
    {
        match self.active_or_passive() {
            ActiveOrPassive::Active(a) => Some(a),
            ActiveOrPassive::Passive(_) => None,
        }
    }

    /// The passive kind of this meter, if it is one.
    pub fn passive(self) -> (r: Option<PassiveMeterType>)
        ensures
            r == match self.active_or_passive_spec() {
                ActiveOrPassive::Active(_) => None,
                ActiveOrPassive::Passive(p) => Some(p),
            },
    {
        match self.active_or_passive() {
            ActiveOrPassive::Active(_) => None,
            ActiveOrPassive::Passive(p) => Some(p),
        }
    }
}

impl ActiveMeterType {
    pub open spec fn typ_spec(self) -> MeterType {
        match self {
            ActiveMeterType::Gun => MeterType::Gun,
            ActiveMeterType::Medkit => MeterType::Medkit,
            ActiveMeterType::Metabol => MeterType::Metabol,
            ActiveMeterType::Push => MeterType::Push,
            ActiveMeterType::RailGun => MeterType::RailGun,
            ActiveMeterType::Blink => MeterType::Blink,
        }
    }

    /// The general kind of this active meter.
    pub fn typ(self) -> (t: MeterType)
        ensures
            t == self.typ_spec(),
            t.active_or_passive_spec() == ActiveOrPassive::Active(self),
    {
        match self {
            ActiveMeterType::Gun => MeterType::Gun,
            ActiveMeterType::Medkit => MeterType::Medkit,
            ActiveMeterType::Metabol => MeterType::Metabol,
            ActiveMeterType::Push => MeterType::Push,
            ActiveMeterType::RailGun => MeterType::RailGun,
            ActiveMeterType::Blink => MeterType::Blink,
        }
    }
}

impl PassiveMeterType {
    pub open spec fn typ_spec(self) -> MeterType {
        match self {
            PassiveMeterType::Health => MeterType::Health,
            PassiveMeterType::Stamina => MeterType::Stamina,
            PassiveMeterType::Kevlar => MeterType::Kevlar,
            PassiveMeterType::Compass => MeterType::Compass,
        }
    }

    /// The general kind of this passive meter.
    pub fn typ(self) -> (t: MeterType)
        ensures
            t == self.typ_spec(),
            t.active_or_passive_spec() == ActiveOrPassive::Passive(self),
    {
        match self {
            PassiveMeterType::Health => MeterType::Health,
            PassiveMeterType::Stamina => MeterType::Stamina,
            PassiveMeterType::Kevlar => MeterType::Kevlar,
            PassiveMeterType::Compass => MeterType::Compass,
        }
    }
}

impl ActiveMeterIdentifier {
    pub fn from_index(index: usize) -> (r: ActiveMeterIdentifier)
        ensures
            r.index == index,
    {
        ActiveMeterIdentifier { index }
    }

    pub fn to_index(self) -> (i: usize)
        ensures
            i == self.index,
    {
        self.index
    }
}

/// What the game's content says of one meter kind: the meter a player
/// receives when the kind is granted, and its recurring change, if any.
#[derive(Clone, Copy, Debug, PartialEq, Eq, Structural)]
pub struct MeterRule {
    pub initial: Meter,
    pub periodic: Option<PeriodicChange>,
}

/// The static table of meter rules, one per kind.
pub struct Rules {
    table: Vec<MeterRule>,
}

impl View for Rules {
    type V = Seq<MeterRule>;

    closed spec fn view(&self) -> Seq<MeterRule> {
        self.table@
    }
}

impl Rules {
    /// The table has one rule per meter kind.
    pub open spec fn wf(&self) -> bool {
        self@.len() == NUM_METER_TYPES
    }

    pub open spec fn rule(&self, typ: MeterType) -> MeterRule {
        self@[typ.index_spec()]
    }

    /// A table in which every kind has the same rule.
    pub fn uniform(rule: MeterRule) -> (r: Rules)
        ensures
            r.wf(),
            forall|t: MeterType| r.rule(t) == rule,
    {
        let mut table: Vec<MeterRule> = Vec::new();
        let mut i: usize = 0;
        while i < NUM_METER_TYPES
            invariant
                i <= NUM_METER_TYPES,
                table@.len() == i,
                forall|j: int| 0 <= j < i ==> table@[j] == rule,
            decreases NUM_METER_TYPES - i,
        {
            table.push(rule);
            i += 1;
        }
        Rules { table }
    }

    /// Replaces the rule of one kind.
    pub fn set(&mut self, typ: MeterType, rule: MeterRule)
        requires
            old(self).wf(),
        ensures
            final(self).wf(),
            final(self)@ == old(self)@.update(typ.index_spec(), rule),
    {
        let i = typ.index();
        self.table.set(i, rule);
    }

    /// The number of rules in the table.
    pub fn len(&self) -> (n: usize)
        ensures
            n == self@.len(),
    {
        self.table.len()
    }

    pub fn get(&self, typ: MeterType) -> (r: MeterRule)
        requires
            self.wf(),
        ensures
            r == self.rule(typ),
    {
        self.table[typ.index()]
    }

    /// A copy of the table.
    pub fn duplicate(&self) -> (r: Rules)
        ensures
            r@ == self@,
    {
        Rules { table: copy_vec(&self.table) }
    }
}

} // verus!
