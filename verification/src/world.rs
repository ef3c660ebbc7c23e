//! The world as the turn logic reads it: plain values taken from the
//! component storage, the spatial index and the distance field.

use vstd::prelude::*;
use crate::change::{Component, EntityId, NpcInfo, TileInfo, Transform};
use crate::coord::{lemma_index_in_range, Coord, Size};
use crate::levels::GoalType;
use crate::meter::{GoalMeterType, Meter};
use crate::vecs::copy_vec;

verus! {

/// What the spatial index holds for one coordinate.
#[derive(Clone, Copy, Debug, PartialEq, Eq, Structural)]
pub struct SpatialCell {
    pub solid_count: u32,
    pub door_count: u32,
    pub npc_count: u32,
}

/// One non-player character, in the iteration order of the storage.
#[derive(Clone, Copy, Debug, PartialEq, Eq, Structural)]
pub struct Npc {
    pub id: EntityId,
    pub coord: Coord,
    pub info: NpcInfo,
    pub countdown: Option<u32>,
    pub tile_info: Option<TileInfo>,
    pub transform: Option<Transform>,
    /// Steps to the player along the distance field; `None` if unreachable.
    pub distance: Option<u32>,
}

#[derive(Clone, Copy, Debug, PartialEq, Eq, Structural)]
pub struct GoalMeterInfo {
    pub typ: GoalMeterType,
    pub meter: Meter,
}

/// The objective of the current level.
#[derive(Debug)]
pub struct Goal {
    pub typ: GoalType,
    pub complete: bool,
    /// For each coordinate of the objective, its distance to the player,
    /// `None` if unreachable.
    pub distances: Vec<Option<i32>>,
    pub meters: Vec<GoalMeterInfo>,
}

#[derive(Debug)]
pub struct World {
    /// The world tick.
    pub count: u64,
    pub size: Size,
    /// The spatial index, row by row.
    pub cells: Vec<SpatialCell>,
    pub player_id: EntityId,
    pub player_coord: Coord,
    pub player_components: Vec<Component>,
    pub npcs: Vec<Npc>,
    pub goal: Option<Goal>,
    /// The distance from the stairs to the player, if there are stairs and
    /// they are reachable.
    pub stairs_distance: Option<i32>,
}

/// The mathematical value of a [`Goal`].
pub struct GoalView {
    pub typ: GoalType,
    pub complete: bool,
    pub distances: Seq<Option<i32>>,
    pub meters: Seq<GoalMeterInfo>,
}

/// The mathematical value of a [`World`].
pub struct WorldView {
    pub count: u64,
    pub size: Size,
    pub cells: Seq<SpatialCell>,
    pub player_id: EntityId,
    pub player_coord: Coord,
    pub player_components: Seq<Component>,
    pub npcs: Seq<Npc>,
    pub goal: Option<GoalView>,
    pub stairs_distance: Option<i32>,
}

impl View for Goal {
    type V = GoalView;

    open spec fn view(&self) -> GoalView {
        GoalView {
            typ: self.typ,
            complete: self.complete,
            distances: self.distances@,
            meters: self.meters@,
        }
    }
}

impl View for World {
    type V = WorldView;

    open spec fn view(&self) -> WorldView {
        WorldView {
            count: self.count,
            size: self.size,
            cells: self.cells@,
            player_id: self.player_id,
            player_coord: self.player_coord,
            player_components: self.player_components@,
            npcs: self.npcs@,
            goal: match self.goal {
                Some(g) => Some(g@),
                None => None,
            },
            stairs_distance: self.stairs_distance,
        }
    }
}

impl SpatialCell {
    pub open spec fn empty() -> SpatialCell {
        SpatialCell { solid_count: 0, door_count: 0, npc_count: 0 }
    }

    /// A cell blocks movement when something solid that is not a door
    /// stands in it.
    pub open spec fn is_solid(self) -> bool {
        self.solid_count > 0 && self.door_count == 0
    }

    pub open spec fn has_npc(self) -> bool {
        self.npc_count > 0
    }
}

impl World {
    /// A world is well formed when the spatial index has one cell per
    /// coordinate and the player and all characters stand inside the map.
    pub open spec fn wf(&self) -> bool {
        &&& self.size.wf()
        &&& self.cells@.len() == self.size.count()
        &&& self.size.contains(self.player_coord)
        &&& forall|i: int| 0 <= i < self.npcs@.len() ==> self.size.contains(
            (#[trigger] self.npcs@[i]).coord,
        )
    }

    /// The spatial cell at a coordinate, `None` outside the map.
    pub open spec fn cell(&self, x: int, y: int) -> Option<SpatialCell> {
        if 0 <= x < self.size.width && 0 <= y < self.size.height {
            Some(self.cells@[y * self.size.width + x])
        } else {
            None
        }
    }

    /// A world of the given size with empty cells, no characters and no
    /// objective. `None` if the size is not valid or the player would stand
    /// outside the map.
    pub fn new(size: Size, count: u64, player_id: EntityId, player_coord: Coord) -> (r: Option<
        World,
    >)
        ensures
            match r {
                Some(w) => {
                    &&& size.wf() && size.contains(player_coord)
                    &&& w.wf()
                    &&& w.size == size
                    &&& w.count == count
                    &&& w.player_id == player_id
                    &&& w.player_coord == player_coord
                    &&& w.cells@ == Seq::new(size.count(), |i: int| SpatialCell::empty())
                    &&& w.player_components@.len() == 0
                    &&& w.npcs@.len() == 0
                    &&& w.goal is None
                    &&& w.stairs_distance is None
                },
                None => !(size.wf() && size.contains(player_coord)),
            },
    {
        match Size::new(size.width, size.height) {
            None => None,
            Some(_) => {
                if !size.is_valid(player_coord) {
                    return None;
                }
                let total: u32 = size.width * size.height;
                let mut cells: Vec<SpatialCell> = Vec::new();
                let mut i: u32 = 0;
                while i < total
                    invariant
                        i <= total,
                        cells@.len() == i,
                        forall|j: int| 0 <= j < i ==> cells@[j] == SpatialCell::empty(),
                    decreases total - i,
                {
                    cells.push(SpatialCell { solid_count: 0, door_count: 0, npc_count: 0 });
                    i += 1;
                }
                assert(cells@ =~= Seq::new(size.count(), |i: int| SpatialCell::empty()));
                Some(
                    World {
                        count,
                        size,
                        cells,
                        player_id,
                        player_coord,
                        player_components: Vec::new(),
                        npcs: Vec::new(),
                        goal: None,
                        stairs_distance: None,
                    },
                )
            },
        }
    }

    /// Checks that the world is well formed.
    pub fn validate(&self) -> (b: bool)
        ensures
            b == self.wf(),
    {
        match Size::new(self.size.width, self.size.height) {
            None => {
                return false;
            },
            Some(_) => {},
        }
        let total: u32 = self.size.width * self.size.height;
        if self.cells.len() != total as usize {
            return false;
        }
        if !self.size.is_valid(self.player_coord) {
            return false;
        }
        let mut i: usize = 0;
        while i < self.npcs.len()
            invariant
                i <= self.npcs@.len(),
                forall|j: int| 0 <= j < i ==> self.size.contains((#[trigger] self.npcs@[j]).coord),
            decreases self.npcs@.len() - i,
        {
            if !self.size.is_valid(self.npcs[i].coord) {
                return false;
            }
            i += 1;
        }
        true
    }

    /// The spatial cell at `coord`, `None` outside the map.
    pub fn get(&self, coord: Coord) -> (r: Option<SpatialCell>)
        requires
            self.wf(),
        ensures
            r == self.cell(coord.x as int, coord.y as int),
    {
        if self.size.is_valid(coord) {
            proof {
                lemma_index_in_range(self.size, coord);
            }
            let index: u32 = coord.y as u32 * self.size.width + coord.x as u32;
            Some(self.cells[index as usize])
        } else {
            None
        }
    }

    /// Replaces the spatial cell at `coord`. Returns whether `coord` lies
    /// inside the map; outside it nothing changes.
    pub fn set(&mut self, coord: Coord, cell: SpatialCell) -> (inside: bool)
        requires
            old(self).wf(),
        ensures
            final(self).wf(),
            inside == old(self).size.contains(coord),
            inside ==> final(self).cells@ == old(self).cells@.update(
                old(self).size.index_of(coord),
                cell,
            ),
            !inside ==> final(self).cells@ == old(self).cells@,
            final(self).count == old(self).count,
            final(self).size == old(self).size,
            final(self).player_id == old(self).player_id,
            final(self).player_coord == old(self).player_coord,
            final(self).player_components == old(self).player_components,
            final(self).npcs == old(self).npcs,
            final(self).goal == old(self).goal,
            final(self).stairs_distance == old(self).stairs_distance,
    {
        if self.size.is_valid(coord) {
            proof {
                lemma_index_in_range(self.size, coord);
            }
            let index: u32 = coord.y as u32 * self.size.width + coord.x as u32;
            self.cells.set(index as usize, cell);
            true
        } else {
            false
        }
    }

    /// A copy of the world.
    pub fn duplicate(&self) -> (w: World)
        ensures
            w@ == self@,
    {
        World {
            count: self.count,
            size: self.size,
            cells: copy_vec(&self.cells),
            player_id: self.player_id,
            player_coord: self.player_coord,
            player_components: copy_vec(&self.player_components),
            npcs: copy_vec(&self.npcs),
            goal: match &self.goal {
                Some(g) => Some(
                    Goal {
                        typ: g.typ,
                        complete: g.complete,
                        distances: copy_vec(&g.distances),
                        meters: copy_vec(&g.meters),
                    },
                ),
                None => None,
            },
            stairs_distance: self.stairs_distance,
        }
    }

    /// The objective of the level and whether it is complete.
    pub fn goal_info(&self) -> (r: Option<(GoalType, bool)>)
        ensures
            r == match self.goal {
                Some(g) => Some((g.typ, g.complete)),
                None => None,
            },
    {
        match &self.goal {
            Some(g) => Some((g.typ, g.complete)),
            None => None,
        }
    }
}

} // verus!
