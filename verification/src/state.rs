//! The engine: the change queue, the turn phase, the visibility memory and
//! the ledger, driven step by step through requests and replies.

use vstd::prelude::*;
use crate::action::{blink, use_gun, use_medkit, use_metabol, use_push, use_rail_gun, walk};
use crate::change::{find_meter, Change, Component, EntityId};
use crate::event::{merge, surface, Alert, Event, Input};
use crate::ledger::{ledger_supported, process_turn_events, PlayerTurnEvent, PlayerTurnEventEntry};
use crate::levels::TerrainInfo;
use crate::meter::{ActiveMeterType, MeterType, PassiveMeterType, Rules};
use crate::model::{equipped, StateView};
use crate::npc::{muster, order_by_distance};
use crate::protocol::{After, ApplyCtx, Fault, NpcCtx, Reply, Request, Stage, TurnState, Verdict, CASCADE_LIMIT};
use crate::queue::{Animation, AnimationChannel, AnimationStatus, MessageQueues, MessageQueuesSwap};
use crate::visibility::{sighting_views, VisibilityGrid, VisibilityIter};
use crate::world::World;

verus! {

broadcast use vstd::std_specs::hash::group_hash_axioms;

pub struct State {
    pub(crate) messages: MessageQueues,
    pub(crate) swap_messages: MessageQueuesSwap,
    pub(crate) npc_order: Vec<EntityId>,
    pub(crate) seen_animation_channels: std::collections::HashSet<AnimationChannel>,
    pub(crate) rng: rand::rngs::StdRng,
    pub(crate) turn: TurnState,
    pub(crate) rules: Rules,
    pub(crate) active_meters: Vec<ActiveMeterType>,
    pub(crate) passive_meters: Vec<PassiveMeterType>,
    pub(crate) selected_meter: Option<ActiveMeterType>,
    pub(crate) levels: Vec<TerrainInfo>,
    pub(crate) level_index: usize,
    pub(crate) player_turn_events: Vec<PlayerTurnEventEntry>,
    pub(crate) visibility_grid: VisibilityGrid,
    pub(crate) rng_seed: usize,
    pub(crate) carry: Vec<Component>,
    pub(crate) stage: Stage,
}

impl View for State {
    type V = StateView;

    closed spec fn view(&self) -> StateView {
        StateView {
            messages: self.messages@,
            swap: self.swap_messages@,
            npc_order: self.npc_order@,
            seen: self.seen_animation_channels@,
            turn: self.turn,
            rules: self.rules@,
            active_meters: self.active_meters@,
            passive_meters: self.passive_meters@,
            selected_meter: self.selected_meter,
            levels: self.levels@,
            level_index: self.level_index,
            ledger: self.player_turn_events@,
            grid: self.visibility_grid@,
            rng_seed: self.rng_seed,
            carry: self.carry@,
            stage: self.stage,
        }
    }
}

/// The value of the engine's state, field by field.
pub(crate) broadcast proof fn lemma_state_view(s: State)
    ensures
        #[trigger] s.view() == (StateView {
            messages: s.messages@,
            swap: s.swap_messages@,
            npc_order: s.npc_order@,
            seen: s.seen_animation_channels@,
            turn: s.turn,
            rules: s.rules@,
            active_meters: s.active_meters@,
            passive_meters: s.passive_meters@,
            selected_meter: s.selected_meter,
            levels: s.levels@,
            level_index: s.level_index,
            ledger: s.player_turn_events@,
            grid: s.visibility_grid@,
            rng_seed: s.rng_seed,
            carry: s.carry@,
            stage: s.stage,
        }),
{
}

impl State {
    /// The end of a step's logic.
    fn finish(&mut self, world: &World, event: Option<Event>) -> (r: Request)
        ensures
            (final(self)@, r) == old(self)@.finishing(world, event),
    {
        self.stage = Stage::Observing(surface(event), false);
        Request::Observe(world.player_coord)
    }

    /// Hands a change out for application.
    fn hand_out(&mut self, world: &World, ctx: ApplyCtx, change: Change) -> (r: Request)
        ensures
            (final(self)@, r) == old(self)@.handed(world, ctx, change),
    {
        match change {
            Change::Insert(id, Component::Coord(c)) => {
                if id == world.player_id {
                    self.messages.player_moved_to = Some(c);
                }
            },
            _ => {},
        }
        self.stage = Stage::Applying(ctx);
        Request::Apply(change)
    }

    /// One move of a commit.
    fn settle(&mut self, world: &World, ctx: ApplyCtx) -> (r: Request)
        requires
            old(self)@.wf_base(),
            old(self)@.swap.animations.len() == 0,
            ctx.after matches After::Npc(c) ==> c.index < old(self)@.npc_order.len(),
            ledger_supported(old(self)@.ledger, world.player_components@),
        ensures
            (final(self)@, r) == old(self)@.settled(world, ctx),
            final(self)@.wf(),
        decreases ctx.after.rank(), 1nat,
    {
        if ctx.next < self.swap_messages.changes.len() {
            let change = self.swap_messages.changes[ctx.next];
            return self.hand_out(world, ctx, change);
        }
        self.swap_messages.changes.clear();
        assert(self.swap_messages@.animations =~= Seq::empty());
        assert(self@.swap =~= crate::queue::SwapView::empty());
        if self.messages.changes.len() == 0 {
            return self.after_commit(world, ctx.after, ctx.acc);
        }
        if ctx.passes >= CASCADE_LIMIT {
            self.stage = Stage::Ready;
            return Request::Fault(Fault::CascadeLimit);
        }
        self.messages.drain_changes(&mut self.swap_messages);
        let change = self.swap_messages.changes[0];
        self.hand_out(
            world,
            ApplyCtx { next: 0, passes: ctx.passes + 1, acc: ctx.acc, after: ctx.after },
            change,
        )
    }

    /// What follows a finished commit.
    fn after_commit(&mut self, world: &World, after: After, event: Option<Event>) -> (r: Request)
        requires
            old(self)@.wf_base(),
            old(self)@.swap == crate::queue::SwapView::empty(),
            after matches After::Npc(c) ==> c.index < old(self)@.npc_order.len(),
            ledger_supported(old(self)@.ledger, world.player_components@),
        ensures
            (final(self)@, r) == old(self)@.committed(world, after, event),
            final(self)@.wf(),
        decreases after.rank(), 0nat,
    {
        match after {
            After::Player => {
                process_turn_events(
                    &mut self.player_turn_events,
                    world.player_id,
                    &world.player_components,
                    &mut self.messages,
                );
                proof {
                    lemma_ticked_supported(old(self)@.ledger, world.player_components@);
                }
                self.settle(
                    world,
                    ApplyCtx { next: 0, passes: 0, acc: None, after: After::Ledger(event) },
                )
            },
            After::Ledger(kept) => self.finish(world, kept),
            After::Npc(ctx) => self.absorb(world, ctx, event),
            After::Animation => self.finish(world, event),
        }
    }

    /// Tells the next character of the order to act.
    fn next_npc(&mut self, world: &World, ctx: NpcCtx) -> (r: Request)
        requires
            old(self)@.wf_base(),
            old(self)@.swap == crate::queue::SwapView::empty(),
        ensures
            (final(self)@, r) == old(self)@.next_npc(world, ctx),
            final(self)@.wf(),
    {
        if ctx.index < self.npc_order.len() {
            self.stage = Stage::Acting(ctx);
            Request::Act(self.npc_order[ctx.index])
        } else {
            self.finish(world, ctx.pending)
        }
    }

    /// Takes in the event of one character's action.
    fn absorb(&mut self, world: &World, ctx: NpcCtx, event: Option<Event>) -> (r: Request)
        requires
            old(self)@.wf_base(),
            old(self)@.swap == crate::queue::SwapView::empty(),
            ctx.index < old(self)@.npc_order.len(),
        ensures
            (final(self)@, r) == old(self)@.absorbed(world, ctx, event),
            final(self)@.wf(),
    {
        let len = self.npc_order.len();
        assert(ctx.index < len);
        match event {
            Some(e) => {
                if e.is_terminal() {
                    self.finish(world, event)
                } else {
                    self.next_npc(world, NpcCtx { index: ctx.index + 1, pending: event })
                }
            },
            None => self.next_npc(
                world,
                NpcCtx { index: ctx.index + 1, pending: ctx.pending },
            ),
        }
    }

    /// Starts a pass over the characters.
    fn muster_pass(&mut self, world: &World, fast_only: bool) -> (r: Request)
        requires
            old(self)@.wf_base(),
            old(self)@.swap == crate::queue::SwapView::empty(),
        ensures
            (final(self)@, r) == old(self)@.mustered(world, fast_only),
            final(self)@.wf(),
    {
        let (roll, fast_seen) = muster(world, &self.visibility_grid, fast_only, &mut self.messages);
        self.npc_order = order_by_distance(&roll);
        self.turn = if !fast_only && fast_seen {
            TurnState::FastNpcs
        } else {
            TurnState::Player
        };
        self.next_npc(world, NpcCtx { index: 0, pending: None })
    }

    /// The round of all characters.
    fn all_npc_turns(&mut self, world: &World) -> (r: Request)
        requires
            old(self)@.wf_base(),
            old(self)@.swap == crate::queue::SwapView::empty(),
            old(self)@.turn is Npcs,
        ensures
            (final(self)@, r) == old(self)@.rounding(world),
            final(self)@.wf(),
    {
        match self.messages.player_moved_to {
            Some(c) => {
                self.messages.player_moved_to = None;
                self.stage = Stage::Refreshing;
                Request::RefreshDistances(c)
            },
            None => self.muster_pass(world, false),
        }
    }

    /// The second pass, of the fast characters.
    fn fast_npc_turns(&mut self, world: &World) -> (r: Request)
        requires
            old(self)@.wf_base(),
            old(self)@.swap == crate::queue::SwapView::empty(),
        ensures
            (final(self)@, r) == old(self)@.mustered(world, true),
            final(self)@.wf(),
    {
        self.muster_pass(world, true)
    }

    /// Goes through the batch of animations from position `from`.
    fn step_from(&mut self, world: &World, from: usize) -> (r: Request)
        requires
            old(self)@.wf_base(),
            old(self)@.swap.changes.len() == 0,
            ledger_supported(old(self)@.ledger, world.player_components@),
        ensures
            (final(self)@, r) == old(self)@.stepping(world, from as int),
            final(self)@.wf(),
    {
        let mut at = from;
        while at < self.swap_messages.animations.len()
            invariant
                self@.wf_base(),
                self@.swap.changes.len() == 0,
                ledger_supported(self@.ledger, world.player_components@),
                self@.stepping(world, at as int) == old(self)@.stepping(world, from as int),
            decreases self@.swap.animations.len() - at,
        {
            let animation = self.swap_messages.animations[at];
            let deferred = match animation.channel {
                Some(c) => self.seen_animation_channels.contains(&c),
                None => false,
            };
            if deferred {
                self.messages.animate(animation);
                at += 1;
            } else {
                self.stage = Stage::Stepping(at);
                return Request::Step(animation);
            }
        }
        self.swap_messages.animations.clear();
        self.settle(world, ApplyCtx { next: 0, passes: 0, acc: None, after: After::Animation })
    }

    /// Takes in the report of a stepped animation.
    fn stepped(&mut self, world: &World, at: usize, status: AnimationStatus) -> (r: Request)
        requires
            old(self)@.wf_base(),
            old(self)@.swap.changes.len() == 0,
            at < old(self)@.swap.animations.len(),
            ledger_supported(old(self)@.ledger, world.player_components@),
        ensures
            (final(self)@, r) == old(self)@.stepped(world, at as int, status),
            final(self)@.wf(),
    {
        let len = self.swap_messages.animations.len();
        assert(at < len);
        let animation = self.swap_messages.animations[at];
        match status {
            AnimationStatus::Finished => {},
            AnimationStatus::Continuing => {
                self.messages.animate(animation);
            },
            AnimationStatus::ContinuingOnChannel(c) => {
                self.messages.animate(animation);
                self.seen_animation_channels.insert(c);
            },
        }
        self.step_from(world, at + 1)
    }

    /// A step devoted to the animations.
    fn animation_tick(&mut self, world: &World) -> (r: Request)
        requires
            old(self)@.wf_base(),
            old(self)@.swap == crate::queue::SwapView::empty(),
            ledger_supported(old(self)@.ledger, world.player_components@),
        ensures
            (final(self)@, r) == old(self)@.animating(world),
            final(self)@.wf(),
    {
        self.seen_animation_channels.clear();
        self.messages.drain_animations(&mut self.swap_messages);
        self.step_from(world, 0)
    }

    /// Uses an active meter that needs no direction.
    fn use_instant(&mut self, world: &World, typ: ActiveMeterType) -> (r: Result<(), Alert>)
        requires
            world.wf(),
            equipped(old(self)@.active_meters, world.player_components@),
            old(self)@.active_meters.contains(typ),
            crate::model::asks_direction(typ) is None,
        ensures
            crate::action::settles(
                crate::model::instant_outcome(world, typ),
                old(self)@.messages,
                r,
                final(self)@.messages,
            ),
            final(self)@ == (StateView { messages: final(self)@.messages, ..old(self)@ }),
    {
        proof {
            let i = choose|i: int|
                0 <= i < self@.active_meters.len() && self@.active_meters[i] == typ;
            assert(crate::change::meter_of(
                world.player_components@,
                self@.active_meters[i].typ_spec(),
            ) is Some);
        }
        match typ {
            ActiveMeterType::Gun => use_gun(world, &mut self.messages),
            ActiveMeterType::Medkit => use_medkit(world, &mut self.messages),
            ActiveMeterType::Metabol => use_metabol(world, &mut self.messages),
            _ => use_push(world, &mut self.messages),
        }
    }

    /// The player's turn.
    fn player_turn(&mut self, world: &World, input: Input) -> (r: Request)
        requires
            old(self)@.wf_base(),
            old(self)@.swap == crate::queue::SwapView::empty(),
            old(self)@.turn is Player,
            world.wf(),
            equipped(old(self)@.active_meters, world.player_components@),
        ensures
            (final(self)@, r) == old(self)@.player_turn(world, input),
            final(self)@.wf(),
    {
        match input {
            Input::Direction(direction) => {
                proof {
                    if let Some(t) = self@.selected_meter {
                        let i = choose|i: int|
                            0 <= i < self@.active_meters.len() && self@.active_meters[i] == t;
                        assert(crate::change::meter_of(
                            world.player_components@,
                            self@.active_meters[i].typ_spec(),
                        ) is Some);
                    }
                }
                let outcome = match self.selected_meter {
                    None => walk(world, direction, &mut self.messages),
                    Some(ActiveMeterType::Blink) => blink(world, direction, &mut self.messages),
                    Some(ActiveMeterType::RailGun) => use_rail_gun(
                        world,
                        direction,
                        &mut self.messages,
                    ),
                    Some(_) => {
                        return self.finish(world, None);
                    },
                };
                self.selected_meter = None;
                match outcome {
                    Err(alert) => {
                        return self.finish(world, Some(Event::alert(alert)));
                    },
                    Ok(()) => {},
                }
            },
            Input::ActiveMeterSelect(slot) => {
                if slot.index < self.active_meters.len() {
                    let typ = self.active_meters[slot.index];
                    match typ {
                        ActiveMeterType::Blink => {
                            self.selected_meter = Some(typ);
                            return self.finish(
                                world,
                                Some(Event::alert(Alert::BlinkWhichDirection)),
                            );
                        },
                        ActiveMeterType::RailGun => {
                            self.selected_meter = Some(typ);
                            return self.finish(
                                world,
                                Some(Event::alert(Alert::RailgunWhichDirection)),
                            );
                        },
                        _ => {
                            match self.use_instant(world, typ) {
                                Err(alert) => {
                                    return self.finish(world, Some(Event::alert(alert)));
                                },
                                Ok(()) => {},
                            }
                        },
                    }
                } else {
                    return self.finish(world, Some(Event::alert(Alert::NoSuchMeter)));
                }
            },
            Input::MeterDeselect => {
                self.selected_meter = None;
                return self.finish(world, None);
            },
            Input::Wait => {},
        }
        self.stage = Stage::Prechecking;
        Request::Precheck
    }

    /// Takes in the verdict of the rules.
    fn prechecked(&mut self, world: &World, verdict: Verdict) -> (r: Request)
        requires
            old(self)@.wf_base(),
            old(self)@.swap == crate::queue::SwapView::empty(),
            ledger_supported(old(self)@.ledger, world.player_components@),
        ensures
            (final(self)@, r) == old(self)@.prechecked(world, verdict),
            final(self)@.wf(),
    {
        match verdict {
            Verdict::Reject(alert) => {
                self.messages.changes.clear();
                let event = match alert {
                    Some(a) => Some(Event::alert(a)),
                    None => None,
                };
                self.finish(world, event)
            },
            Verdict::Accept => {
                self.turn = TurnState::Npcs;
                self.settle(
                    world,
                    ApplyCtx { next: 0, passes: 0, acc: None, after: After::Player },
                )
            },
        }
    }

    /// Starts one step of the simulation.
    ///
    /// If animations are pending, the whole step is devoted to them and the
    /// phase stays as it is. Otherwise the phase decides: the player's turn
    /// consumes `input`, if there is one, and the two passes of the
    /// characters follow. Whatever the branch, the step ends by querying
    /// the line of sight. Outside the `Ready` stage nothing changes and the
    /// request is `Fault(OutOfTurn)`.
    pub fn tick(&mut self, world: &World, input: Option<Input>) -> (r: Request)
        requires
            old(self)@.wf(),
            old(self)@.fits(world),
        ensures
            (final(self)@, r) == old(self)@.ticked(world, input),
            final(self)@.wf(),
    {
        match self.stage {
            Stage::Ready => {},
            _ => {
                return Request::Fault(Fault::OutOfTurn);
            },
        }
        if self.messages.animations.len() > 0 {
            return self.animation_tick(world);
        }
        match self.turn {
            TurnState::Player => match input {
                Some(input) => self.player_turn(world, input),
                None => self.finish(world, None),
            },
            TurnState::Npcs => self.all_npc_turns(world),
            TurnState::FastNpcs => self.fast_npc_turns(world),
        }
    }

    /// Takes in the reply to the request the engine is waiting on and gives
    /// the next request.
    ///
    /// A reply that does not answer that request changes nothing and gives
    /// `Fault(OutOfTurn)`. The reply to the generation of the first level
    /// is answered by a draw: see [`StateView::equipping`].
    pub fn resume(&mut self, world: &World, reply: Reply) -> (r: Request)
        requires
            old(self)@.wf(),
            old(self)@.fits(world),
        ensures
            final(self)@.wf(),
            if old(self)@.draws(reply) {
                old(self)@.equipping(world, final(self)@, r)
            } else {
                (final(self)@, r) == old(self)@.resumed(world, reply)
            },
    {
        match (self.stage, reply) {
            (Stage::Prechecking, Reply::Prechecked(verdict)) => self.prechecked(world, verdict),
            (Stage::Applying(ctx), Reply::Applied(event)) => {
                let len = self.swap_messages.changes.len();
                assert(ctx.next < len);
                self.settle(
                    world,
                    ApplyCtx {
                        next: ctx.next + 1,
                        passes: ctx.passes,
                        acc: merge(ctx.acc, event),
                        after: ctx.after,
                    },
                )
            },
            (Stage::Refreshing, Reply::DistancesRefreshed) => self.muster_pass(world, false),
            (Stage::Acting(c), Reply::Acted) => self.settle(
                world,
                ApplyCtx { next: 0, passes: 0, acc: None, after: After::Npc(c) },
            ),
            (Stage::Stepping(at), Reply::Stepped(status)) => self.stepped(world, at, status),
            (Stage::Observing(event, root), Reply::Sighted(sightings)) => {
                self.visibility_grid.reconcile(world.count, sightings);
                proof {
                    crate::visibility::lemma_reconciled_size(
                        old(self)@.grid,
                        world.count,
                        sighting_views(sightings@),
                    );
                }
                if root {
                    self.stage = Stage::Rooting;
                    Request::RefreshDistances(world.player_coord)
                } else {
                    self.stage = Stage::Ready;
                    Request::Done(event)
                }
            },
            (Stage::Rooting, Reply::DistancesRefreshed) => {
                self.stage = Stage::Ready;
                Request::Done(None)
            },
            (Stage::Generating { first, upgrade }, Reply::Generated) => {
                if first {
                    self.equip(world)
                } else {
                    self.arrive(world, upgrade)
                }
            },
            (Stage::Populating { first }, Reply::Populated) => self.settle_in(world, first),
            _ => Request::Fault(Fault::OutOfTurn),
        }
    }
}

/// The engine's generator is the one it holds.
pub(crate) broadcast proof fn lemma_state_generator(s: State)
    ensures
        #[trigger] s.generator() == s.rng,
{
}

/// Whether the player holds what the event needs in order to fire.
fn supports(event: PlayerTurnEvent, components: &Vec<Component>) -> (b: bool)
    ensures
        b == event.supported_by(components@),
{
    let typ = match event {
        PlayerTurnEvent::ChangeActiveMeter(t, _) => t.typ(),
        PlayerTurnEvent::ChangePassiveMeter(t, _) => t.typ(),
    };
    find_meter(components, typ).is_some()
}

impl State {
    /// The active meter that waits for a direction, if any.
    pub fn selected_meter_type(&self) -> (r: Option<ActiveMeterType>)
        ensures
            r == self@.selected_meter,
    {
        self.selected_meter
    }

    /// The seed the generator was last seeded with.
    pub fn rng_seed(&self) -> (seed: usize)
        ensures
            seed == self@.rng_seed,
    {
        self.rng_seed
    }

    /// The phase.
    pub fn turn(&self) -> (t: TurnState)
        ensures
            t == self@.turn,
    {
        self.turn
    }

    /// Whether the next step consumes an input.
    pub fn wants_input(&self) -> (b: bool)
        ensures
            b == self@.wants_input(),
    {
        match (self.stage, self.turn) {
            (Stage::Ready, TurnState::Player) => self.messages.animations.len() == 0,
            _ => false,
        }
    }

    /// What the engine is waiting for.
    pub fn stage(&self) -> (s: Stage)
        ensures
            s == self@.stage,
    {
        self.stage
    }

    /// The position of the current level in the campaign.
    pub fn level_index(&self) -> (i: usize)
        ensures
            i == self@.level_index,
    {
        self.level_index
    }

    /// The levels of the campaign.
    pub fn levels(&self) -> (levels: &Vec<TerrainInfo>)
        ensures
            levels@ == self@.levels,
    {
        &self.levels
    }

    /// The pending changes and animations.
    pub fn messages(&self) -> (q: &MessageQueues)
        ensures
            q@ == self@.messages,
    {
        &self.messages
    }

    /// The changes of the batch in progress: after `Populate`, what is to
    /// be committed to the world directly.
    pub fn batch(&self) -> (changes: &Vec<Change>)
        ensures
            changes@ == self@.swap.changes,
    {
        &self.swap_messages.changes
    }

    /// The characters that act in the current pass, in order.
    pub fn npc_order(&self) -> (order: &Vec<EntityId>)
        ensures
            order@ == self@.npc_order,
    {
        &self.npc_order
    }

    /// The player's active meters, by slot.
    pub fn active_meters(&self) -> (list: &Vec<ActiveMeterType>)
        ensures
            list@ == self@.active_meters,
    {
        &self.active_meters
    }

    /// The player's passive meters.
    pub fn passive_meters(&self) -> (list: &Vec<PassiveMeterType>)
        ensures
            list@ == self@.passive_meters,
    {
        &self.passive_meters
    }

    /// The ledger of periodic status events.
    pub fn player_turn_events(&self) -> (ledger: &Vec<PlayerTurnEventEntry>)
        ensures
            ledger@ == self@.ledger,
    {
        &self.player_turn_events
    }

    /// The visibility memory.
    pub fn visibility_grid(&self) -> (grid: &VisibilityGrid)
        ensures
            grid@ == self@.grid,
    {
        &self.visibility_grid
    }

    /// The engine's random generator.
    pub closed spec fn generator(&self) -> rand::rngs::StdRng {
        self.rng
    }

    /// The generator, for the side that builds levels and applies changes.
    ///
    /// The reference that is handed out is the engine's own generator: it
    /// starts as the engine's generator stands, what is drawn through it is
    /// drawn from the engine's generator, and nothing else of the engine
    /// changes.
    pub fn rng(&mut self) -> (rng: &mut rand::rngs::StdRng)
        ensures
            *rng == old(self).generator(),
            final(self).generator() == *final(rng),
            final(self)@ == old(self)@,
    {
        &mut self.rng
    }

    /// Appends a mutation to the list of pending changes.
    pub fn enqueue(&mut self, change: Change)
        ensures
            final(self)@ == (StateView {
                messages: crate::action::queued(old(self)@.messages, seq![change]),
                ..old(self)@
            }),
            old(self)@.wf() ==> final(self)@.wf(),
    {
        self.messages.change(change);
        assert(self.messages@.changes =~= old(self)@.messages.changes + seq![change]);
    }

    /// Appends an animation to the list of pending animations.
    pub fn enqueue_animation(&mut self, animation: Animation)
        ensures
            final(self)@ == (StateView {
                messages: crate::queue::QueuesView {
                    animations: old(self)@.messages.animations.push(animation),
                    ..old(self)@.messages
                },
                ..old(self)@
            }),
            old(self)@.wf() ==> final(self)@.wf(),
    {
        self.messages.animate(animation);
    }

    /// A cursor over the cells that are visible or remembered, against the
    /// tick of `world`.
    pub fn visible_cells(&self, world: &World) -> (it: VisibilityIter<'_>)
        requires
            self@.wf(),
        ensures
            it.wf(),
            it.grid() == self@.grid,
            it.time() == world.count,
            it.position() == 0,
    {
        self.visibility_grid.iter(world.count)
    }

    /// Checks whether the player holds every meter the active list names,
    /// and the health meter if a medkit is among them.
    #[verifier::loop_isolation(false)]
    pub fn equips(&self, world: &World) -> (b: bool)
        ensures
            b == equipped(self@.active_meters, world.player_components@),
    {
        let mut medkit = false;
        let mut i: usize = 0;
        while i < self.active_meters.len()
            invariant
                i <= self.active_meters@.len(),
                forall|j: int|
                    0 <= j < i ==> crate::change::meter_of(
                        world.player_components@,
                        (#[trigger] self.active_meters@[j]).typ_spec(),
                    ) is Some,
                medkit == self.active_meters@.take(i as int).contains(ActiveMeterType::Medkit),
            decreases self.active_meters@.len() - i,
        {
            let typ = self.active_meters[i];
            if find_meter(&world.player_components, typ.typ()).is_none() {
                assert(crate::change::meter_of(
                    world.player_components@,
                    self.active_meters@[i as int].typ_spec(),
                ) is None);
                return false;
            }
            proof {
                let before = self.active_meters@.take(i as int);
                let upto = self.active_meters@.take(i + 1);
                assert(upto =~= before.push(typ));
                if before.contains(ActiveMeterType::Medkit) {
                    let k = choose|k: int|
                        0 <= k < before.len() && before[k] == ActiveMeterType::Medkit;
                    assert(upto[k] == ActiveMeterType::Medkit);
                }
                if typ == ActiveMeterType::Medkit {
                    assert(upto[i as int] == ActiveMeterType::Medkit);
                }
                if upto.contains(ActiveMeterType::Medkit) && typ != ActiveMeterType::Medkit {
                    let k = choose|k: int| 0 <= k < upto.len() && upto[k] == ActiveMeterType::Medkit;
                    assert(before[k] == ActiveMeterType::Medkit);
                }
            }
            match typ {
                ActiveMeterType::Medkit => {
                    medkit = true;
                },
                _ => {},
            }
            i += 1;
        }
        assert(self.active_meters@.take(self.active_meters@.len() as int)
            =~= self.active_meters@);
        !medkit || find_meter(&world.player_components, MeterType::Health).is_some()
    }

    /// Checks whether the player holds what every entry of the ledger
    /// needs.
    #[verifier::loop_isolation(false)]
    pub fn supports_ledger(&self, world: &World) -> (b: bool)
        ensures
            b == ledger_supported(self@.ledger, world.player_components@),
    {
        let mut k: usize = 0;
        while k < self.player_turn_events.len()
            invariant
                k <= self.player_turn_events@.len(),
                forall|j: int|
                    0 <= j < k ==> (#[trigger] self.player_turn_events@[j]).event.supported_by(
                        world.player_components@,
                    ),
            decreases self.player_turn_events@.len() - k,
        {
            if !supports(self.player_turn_events[k].event, &world.player_components) {
                assert(!self.player_turn_events@[k as int].event.supported_by(
                    world.player_components@,
                ));
                return false;
            }
            k += 1;
        }
        true
    }

    /// Checks whether a world goes with this state.
    pub fn fits(&self, world: &World) -> (b: bool)
        ensures
            b == self@.fits(world),
    {
        if !world.validate() {
            return false;
        }
        match self.stage {
            Stage::Boot | Stage::Generating { .. } | Stage::Populating { .. } => {
                return true;
            },
            _ => {},
        }
        let size = self.visibility_grid.size();
        if size.width != world.size.width || size.height != world.size.height {
            return false;
        }
        self.equips(world) && self.supports_ledger(world)
    }
}

/// Counting a ledger down keeps its events, and with them what it needs of
/// the player.
pub proof fn lemma_ticked_supported(entries: Seq<PlayerTurnEventEntry>, components: Seq<Component>)
    requires
        ledger_supported(entries, components),
    ensures
        ledger_supported(crate::ledger::ledger_ticked(entries), components),
{
    let ticked = crate::ledger::ledger_ticked(entries);
    assert forall|i: int| 0 <= i < ticked.len() implies (#[trigger] ticked[i]).event.supported_by(
        components,
    ) by {
        assert(ticked[i] == entries[i].ticked());
        assert(entries[i].event.supported_by(components));
    }
}

} // verus!
