//! Saving the durable part of the engine and restoring an engine from it.

use vstd::prelude::*;
use crate::change::EntityId;
use crate::coord::Size;
use crate::ledger::PlayerTurnEventEntry;
use crate::levels::{TerrainInfo, NUM_LEVELS};
use crate::meter::{ActiveMeterType, MeterRule, PassiveMeterType, Rules, NUM_METER_TYPES};
use crate::model::StateView;
use crate::protocol::{Stage, TurnState};
use crate::queue::{MessageQueues, MessageQueuesSwap, QueuesView, SwapView};
use crate::random::{seeded, seeded_generator};
use crate::state::{lemma_state_generator, lemma_state_view, State};
use crate::vecs::copy_vec;
use crate::visibility::{GridView, VisibilityGrid};
use crate::world::{World, WorldView};

verus! {

broadcast use {lemma_state_view, lemma_state_generator};

/// What is kept of an engine and its world across a save: everything but
/// the generator, which is seeded anew, and the state of the step in
/// progress.
pub struct SaveState {
    pub world: World,
    pub player_id: EntityId,
    pub next_rng_seed: usize,
    pub size: Size,
    pub turn: TurnState,
    pub messages: MessageQueues,
    pub rules: Rules,
    pub active_meters: Vec<ActiveMeterType>,
    pub passive_meters: Vec<PassiveMeterType>,
    pub levels: Vec<TerrainInfo>,
    pub level_index: usize,
    pub player_turn_events: Vec<PlayerTurnEventEntry>,
    pub visibility_grid: VisibilityGrid,
}

/// The mathematical value of a [`SaveState`].
pub struct SaveView {
    pub world: WorldView,
    pub player_id: EntityId,
    pub next_rng_seed: usize,
    pub size: Size,
    pub turn: TurnState,
    pub messages: QueuesView,
    pub rules: Seq<MeterRule>,
    pub active_meters: Seq<ActiveMeterType>,
    pub passive_meters: Seq<PassiveMeterType>,
    pub levels: Seq<TerrainInfo>,
    pub level_index: usize,
    pub ledger: Seq<PlayerTurnEventEntry>,
    pub grid: GridView,
}

impl View for SaveState {
    type V = SaveView;

    open spec fn view(&self) -> SaveView {
        SaveView {
            world: self.world@,
            player_id: self.player_id,
            next_rng_seed: self.next_rng_seed,
            size: self.size,
            turn: self.turn,
            messages: self.messages@,
            rules: self.rules@,
            active_meters: self.active_meters@,
            passive_meters: self.passive_meters@,
            levels: self.levels@,
            level_index: self.level_index,
            ledger: self.player_turn_events@,
            grid: self.visibility_grid@,
        }
    }
}

impl SaveView {
    /// A snapshot can be restored when its rule table is complete, its
    /// campaign has the fixed number of levels and its level cursor points
    /// at one of them.
    pub open spec fn valid(self) -> bool {
        &&& self.rules.len() == NUM_METER_TYPES
        &&& self.levels.len() == NUM_LEVELS
        &&& self.level_index < NUM_LEVELS
    }

    /// The engine a snapshot is restored to: between two steps, with empty
    /// batch buffers, no meter selected, and the seed the snapshot names.
    pub open spec fn restored(self) -> StateView {
        StateView {
            messages: self.messages,
            swap: SwapView::empty(),
            npc_order: Seq::empty(),
            seen: Set::empty(),
            turn: self.turn,
            rules: self.rules,
            active_meters: self.active_meters,
            passive_meters: self.passive_meters,
            selected_meter: None,
            levels: self.levels,
            level_index: self.level_index,
            ledger: self.ledger,
            grid: self.grid,
            rng_seed: self.next_rng_seed,
            carry: Seq::empty(),
            stage: Stage::Ready,
        }
    }
}

impl StateView {
    /// The snapshot of a state and of the world it plays in.
    pub open spec fn saved(self, world: WorldView, next_rng_seed: usize) -> SaveView {
        SaveView {
            world,
            player_id: world.player_id,
            next_rng_seed,
            size: world.size,
            turn: self.turn,
            messages: self.messages,
            rules: self.rules,
            active_meters: self.active_meters,
            passive_meters: self.passive_meters,
            levels: self.levels,
            level_index: self.level_index,
            ledger: self.ledger,
            grid: self.grid,
        }
    }
}

/// Saving and restoring gives back the world as it was, and the state as
/// it was but for what a snapshot does not keep: the batch buffers, the
/// order of the characters and the visited channels are empty, no meter is
/// selected, the engine is between two steps, and the seed is the one the
/// snapshot was given.
pub proof fn lemma_save_restore(state: StateView, world: WorldView, next_rng_seed: usize)
    requires
        state.wf(),
        state.planned(),
    ensures
        state.saved(world, next_rng_seed).valid(),
        state.saved(world, next_rng_seed).world == world,
        state.saved(world, next_rng_seed).restored().wf(),
        state.saved(world, next_rng_seed).restored() == (StateView {
            swap: SwapView::empty(),
            npc_order: Seq::empty(),
            seen: Set::empty(),
            selected_meter: None,
            rng_seed: next_rng_seed,
            carry: Seq::empty(),
            stage: Stage::Ready,
            ..state
        }),
{
}

impl State {
    /// The snapshot of the engine and of the world it plays in, to be
    /// restored with the seed `next_rng_seed`. The generator is not part
    /// of it.
    pub fn save(&self, world: &World, next_rng_seed: usize) -> (s: SaveState)
        requires
            self@.wf(),
        ensures
            s@ == self@.saved(world@, next_rng_seed),
            s.visibility_grid.wf(),
    {
        SaveState {
            world: world.duplicate(),
            player_id: world.player_id,
            next_rng_seed,
            size: world.size,
            turn: self.turn,
            messages: self.messages.duplicate(),
            rules: self.rules.duplicate(),
            active_meters: copy_vec(&self.active_meters),
            passive_meters: copy_vec(&self.passive_meters),
            levels: copy_vec(&self.levels),
            level_index: self.level_index,
            player_turn_events: copy_vec(&self.player_turn_events),
            visibility_grid: self.visibility_grid.duplicate(),
        }
    }

    /// Restores an engine and its world from a snapshot, or `None` if the
    /// snapshot is not valid. The generator is seeded with the seed the
    /// snapshot names.
    pub fn restore(save: SaveState) -> (r: Option<(State, World)>)
        requires
            save.visibility_grid.wf(),
        ensures
            match r {
                Some((state, world)) => {
                    &&& save@.valid()
                    &&& state@ == save@.restored()
                    &&& state@.wf()
                    &&& state.generator() == seeded_generator(save.next_rng_seed as u64)
                    &&& world@ == save@.world
                },
                None => !save@.valid(),
            },
    {
        let SaveState {
            world,
            player_id: _,
            next_rng_seed,
            size: _,
            turn,
            messages,
            rules,
            active_meters,
            passive_meters,
            levels,
            level_index,
            player_turn_events,
            visibility_grid,
        } = save;
        if levels.len() != NUM_LEVELS || level_index >= NUM_LEVELS {
            return None;
        }
        if !rules_complete(&rules) {
            return None;
        }
        let state = State {
            messages,
            swap_messages: MessageQueuesSwap::new(),
            npc_order: Vec::new(),
            seen_animation_channels: std::collections::HashSet::new(),
            rng: seeded(next_rng_seed as u64),
            turn,
            rules,
            active_meters,
            passive_meters,
            selected_meter: None,
            levels,
            level_index,
            player_turn_events,
            visibility_grid,
            rng_seed: next_rng_seed,
            carry: Vec::new(),
            stage: Stage::Ready,
        };
        Some((state, world))
    }
}

/// Whether a rule table has one rule per meter kind.
fn rules_complete(rules: &Rules) -> (b: bool)
    ensures
        b == (rules@.len() == NUM_METER_TYPES),
{
    rules.len() == NUM_METER_TYPES
}

} // verus!
