//! Pending world mutations: pure data, queued and then discarded once they
//! have been applied.

use vstd::prelude::*;
use crate::coord::{CardinalDirection, Coord};
use crate::meter::{Meter, MeterType};

verus! {

pub type EntityId = u64;

/// What the turn logic needs to know of a non-player character.
#[derive(Clone, Copy, Debug, PartialEq, Eq, Structural)]
pub struct NpcInfo {
    /// Set once the character has been seen; never cleared.
    pub active: bool,
    /// Acts a second time in every round.
    pub fast: bool,
    /// Takes actions of its own.
    pub mobile: bool,
}

/// How an entity is drawn and remembered.
#[derive(Clone, Copy, Debug, PartialEq, Eq, Structural)]
pub struct TileInfo {
    pub kind: u32,
    pub countdown: Option<u32>,
}

/// What an entity turns into when its countdown runs out.
#[derive(Clone, Copy, Debug, PartialEq, Eq, Structural)]
pub enum Transform {
    Chrysalis,
    Queen,
    Aracnoid,
    Beetoid,
    Larvae,
}

/// A component value. `Other` stands for the components the turn logic
/// carries but never reads.
#[derive(Clone, Copy, Debug, PartialEq, Eq, Structural)]
pub enum Component {
    Coord(Coord),
    Meter(MeterType, Meter),
    Npc(NpcInfo),
    TileInfo(TileInfo),
    Countdown(u32),
    Other(u32, i64),
}

#[derive(Clone, Copy, Debug, PartialEq, Eq, Structural)]
pub enum ComponentType {
    Coord,
    Meter(MeterType),
    Npc,
    TileInfo,
    Countdown,
    DelayedTransform,
    Other(u32),
}

/// A bundle of content the storage side instantiates when the change is
/// applied.
#[derive(Clone, Copy, Debug, PartialEq, Eq, Structural)]
pub enum Spawn {
    /// A bullet leaving `start` in `direction`.
    Bullet { start: Coord, direction: CardinalDirection },
    /// One segment of a rail gun shot.
    RailGunShot { at: Coord, direction: CardinalDirection },
    /// A wave that pushes what it meets.
    PushWave { start: Coord, direction: CardinalDirection, range: u32 },
    /// A wave that delays the transformations of what it meets.
    MetabolWave { start: Coord, direction: CardinalDirection, range: u32 },
    /// An existing entity turning into something else where it stands.
    Hatch { id: EntityId, into: Transform, at: Coord },
}

/// One atomic mutation.
#[derive(Clone, Copy, Debug, PartialEq, Eq, Structural)]
pub enum Change {
    Insert(EntityId, Component),
    Remove(EntityId, ComponentType),
    Spawn(Spawn),
}

/// How far the waves of the push and metabol meters travel.
pub const WAVE_RANGE: u32 = 8;

impl Component {
    pub open spec fn typ_spec(self) -> ComponentType {
        match self {
            Component::Coord(_) => ComponentType::Coord,
            Component::Meter(t, _) => ComponentType::Meter(t),
            Component::Npc(_) => ComponentType::Npc,
            Component::TileInfo(_) => ComponentType::TileInfo,
            Component::Countdown(_) => ComponentType::Countdown,
            Component::Other(k, _) => ComponentType::Other(k),
        }
    }

    /// The type of a component value.
    pub fn typ(self) -> (t: ComponentType)
        ensures
            t == self.typ_spec(),
    {
        match self {
            Component::Coord(_) => ComponentType::Coord,
            Component::Meter(t, _) => ComponentType::Meter(t),
            Component::Npc(_) => ComponentType::Npc,
            Component::TileInfo(_) => ComponentType::TileInfo,
            Component::Countdown(_) => ComponentType::Countdown,
            Component::Other(k, _) => ComponentType::Other(k),
        }
    }
}

/// The first meter of kind `typ` among `components`.
pub open spec fn meter_of(components: Seq<Component>, typ: MeterType) -> Option<Meter>
    decreases components.len(),
{
    if components.len() == 0 {
        None
    } else {
        match components[0] {
            Component::Meter(t, m) if t == typ => Some(m),
            _ => meter_of(components.drop_first(), typ),
        }
    }
}

/// Whether a component of type `typ` is among `components`.
pub open spec fn has_component(components: Seq<Component>, typ: ComponentType) -> bool {
    exists|i: int| 0 <= i < components.len() && (#[trigger] components[i]).typ_spec() == typ
}

/// Looks up the first meter of kind `typ`.
pub fn find_meter(components: &Vec<Component>, typ: MeterType) -> (r: Option<Meter>)
    ensures
        r == meter_of(components@, typ),
{
    let mut i: usize = 0;
    assert(components@.skip(0) =~= components@);
    while i < components.len()
        invariant
            i <= components@.len(),
            meter_of(components@, typ) == meter_of(components@.skip(i as int), typ),
        decreases components@.len() - i,
    {
        let rest = Ghost(components@.skip(i as int));
        assert(rest@[0] == components@[i as int]);
        assert(rest@.drop_first() =~= components@.skip(i + 1));
        match components[i] {
            Component::Meter(t, m) => {
                if t == typ {
                    return Some(m);
                }
            },
            _ => {},
        }
        i += 1;
    }
    assert(components@.skip(i as int).len() == 0);
    None
}

/// Whether a component of type `typ` is present.
pub fn contains_type(components: &Vec<Component>, typ: ComponentType) -> (b: bool)
    ensures
        b == has_component(components@, typ),
{
    let mut i: usize = 0;
    while i < components.len()
        invariant
            i <= components@.len(),
            forall|j: int| 0 <= j < i ==> (#[trigger] components@[j]).typ_spec() != typ,
        decreases components@.len() - i,
    {
        if components[i].typ() == typ {
            return true;
        }
        i += 1;
    }
    false
}

} // verus!
