//! The engine as a mathematical state machine: the value of its state and
//! the transition each call makes.

use vstd::prelude::*;
use crate::action::{
    blink_outcome, gun_outcome, medkit_outcome, queued, rail_gun_outcome, walk_outcome,
    wave_outcome, Volley,
};
use crate::change::{has_component, meter_of, Change, Component, ComponentType, EntityId};
use crate::event::{first_of, is_terminal, Alert, Event, ExternalEvent, Input};
use crate::ledger::{
    ledger_changes, ledger_supported, ledger_ticked, PlayerTurnEvent, PlayerTurnEventEntry,
};
use crate::levels::{planned, valid_pool, GoalType, TerrainInfo, NUM_LEVELS};
use crate::meter::{
    ActiveMeterType, ActiveOrPassive, MeterRule, MeterType, PassiveMeterType, NUM_METER_TYPES,
};
use crate::npc::{any_fast, by_distance, ids, muster_changes, muster_roll};
use crate::protocol::{
    After, ApplyCtx, Fault, NpcCtx, Reply, Request, Stage, TurnState, Verdict, CASCADE_LIMIT,
};
use crate::queue::{Animation, AnimationChannel, AnimationStatus, QueuesView, SwapView};
use crate::visibility::{sighting_views, GridView, SightingView};
use crate::world::World;

verus! {

/// The mathematical value of the engine's state.
pub struct StateView {
    pub messages: QueuesView,
    pub swap: SwapView,
    pub npc_order: Seq<EntityId>,
    pub seen: Set<AnimationChannel>,
    pub turn: TurnState,
    pub rules: Seq<MeterRule>,
    pub active_meters: Seq<ActiveMeterType>,
    pub passive_meters: Seq<PassiveMeterType>,
    pub selected_meter: Option<ActiveMeterType>,
    pub levels: Seq<TerrainInfo>,
    pub level_index: usize,
    pub ledger: Seq<PlayerTurnEventEntry>,
    pub grid: GridView,
    pub rng_seed: usize,
    pub carry: Seq<Component>,
    pub stage: Stage,
}

/// Whether the player holds every meter the active list names, and the
/// health meter if a medkit is among them.
pub open spec fn equipped(active: Seq<ActiveMeterType>, components: Seq<Component>) -> bool {
    &&& forall|i: int|
        0 <= i < active.len() ==> meter_of(components, (#[trigger] active[i]).typ_spec()) is Some
    &&& active.contains(ActiveMeterType::Medkit) ==> meter_of(components, MeterType::Health) is Some
}

/// The event an optional alert is reported as.
pub open spec fn alerted(alert: Option<Alert>) -> Option<Event> {
    match alert {
        Some(a) => Some(Event::External(ExternalEvent::Alert(a))),
        None => None,
    }
}

/// The externally visible part of an optional event.
pub open spec fn surfaced(event: Option<Event>) -> Option<ExternalEvent> {
    match event {
        Some(e) => Some(e.external_spec()),
        None => None,
    }
}

/// What using an active meter at once, without a direction, does.
pub open spec fn instant_outcome(world: &World, typ: ActiveMeterType) -> Result<Seq<Change>, Alert> {
    match typ {
        ActiveMeterType::Gun => gun_outcome(world),
        ActiveMeterType::Medkit => medkit_outcome(world),
        ActiveMeterType::Metabol => wave_outcome(world, MeterType::Metabol, Volley::MetabolWave),
        _ => wave_outcome(world, MeterType::Push, Volley::PushWave),
    }
}

/// The alert that asks for the direction an active meter needs, for the
/// meters that need one.
pub open spec fn asks_direction(typ: ActiveMeterType) -> Option<Alert> {
    match typ {
        ActiveMeterType::Blink => Some(Alert::BlinkWhichDirection),
        ActiveMeterType::RailGun => Some(Alert::RailgunWhichDirection),
        _ => None,
    }
}

/// The components that follow the player to the next level: all but the
/// position.
pub open spec fn carried_over(components: Seq<Component>) -> Seq<Component>
    decreases components.len(),
{
    if components.len() == 0 {
        Seq::empty()
    } else {
        let front = carried_over(components.drop_last());
        if components.last().typ_spec() == ComponentType::Coord {
            front
        } else {
            front.push(components.last())
        }
    }
}

/// The changes that give `components` to the entity `player`.
pub open spec fn transplanted(player: EntityId, components: Seq<Component>) -> Seq<Change> {
    components.map_values(|c: Component| Change::Insert(player, c))
}

/// The active meters among `components`, in their order.
pub open spec fn actives_of(components: Seq<Component>) -> Seq<ActiveMeterType>
    decreases components.len(),
{
    if components.len() == 0 {
        Seq::empty()
    } else {
        let front = actives_of(components.drop_last());
        match components.last() {
            Component::Meter(t, _) => match t.active_or_passive_spec() {
                ActiveOrPassive::Active(a) => front.push(a),
                ActiveOrPassive::Passive(_) => front,
            },
            _ => front,
        }
    }
}

/// The passive meters among `components`, in their order.
pub open spec fn passives_of(components: Seq<Component>) -> Seq<PassiveMeterType>
    decreases components.len(),
{
    if components.len() == 0 {
        Seq::empty()
    } else {
        let front = passives_of(components.drop_last());
        match components.last() {
            Component::Meter(t, _) => match t.active_or_passive_spec() {
                ActiveOrPassive::Active(_) => front,
                ActiveOrPassive::Passive(p) => front.push(p),
            },
            _ => front,
        }
    }
}

/// The scheduled event of a meter kind.
pub open spec fn scheduled(typ: MeterType, change: i32) -> PlayerTurnEvent {
    match typ.active_or_passive_spec() {
        ActiveOrPassive::Active(a) => PlayerTurnEvent::ChangeActiveMeter(a, change),
        ActiveOrPassive::Passive(p) => PlayerTurnEvent::ChangePassiveMeter(p, change),
    }
}

/// The ledger with the entry of one granted meter kind added, if the rules
/// schedule a change for the kind.
pub open spec fn enrolled(
    ledger: Seq<PlayerTurnEventEntry>,
    rules: Seq<MeterRule>,
    typ: MeterType,
) -> Seq<PlayerTurnEventEntry> {
    match rules[typ.index_spec()].periodic {
        Some(p) => ledger.push(
            PlayerTurnEventEntry { event: scheduled(typ, p.change), remaining: p.turns, reset: p.turns },
        ),
        None => ledger,
    }
}

/// The ledger with the entries of a list of meter kinds added, in order.
pub open spec fn enrolled_all(
    ledger: Seq<PlayerTurnEventEntry>,
    rules: Seq<MeterRule>,
    types: Seq<MeterType>,
) -> Seq<PlayerTurnEventEntry>
    decreases types.len(),
{
    if types.len() == 0 {
        ledger
    } else {
        enrolled(enrolled_all(ledger, rules, types.drop_last()), rules, types.last())
    }
}

/// The general kinds of a list of active meters.
pub open spec fn active_types(active: Seq<ActiveMeterType>) -> Seq<MeterType> {
    active.map_values(|a: ActiveMeterType| a.typ_spec())
}

/// The general kinds of a list of passive meters.
pub open spec fn passive_types(passive: Seq<PassiveMeterType>) -> Seq<MeterType> {
    passive.map_values(|p: PassiveMeterType| p.typ_spec())
}

/// The meter kinds up to index `upto` that are not among `components`, in
/// index order.
pub open spec fn unequipped_upto(components: Seq<Component>, upto: int) -> Seq<MeterType>
    decreases upto,
{
    if upto <= 0 {
        Seq::empty()
    } else {
        let front = unequipped_upto(components, upto - 1);
        let typ = MeterType::all_spec()[upto - 1];
        if has_component(components, ComponentType::Meter(typ)) {
            front
        } else {
            front.push(typ)
        }
    }
}

/// The meter kinds the player does not hold, in index order.
pub open spec fn unequipped(components: Seq<Component>) -> Seq<MeterType> {
    unequipped_upto(components, NUM_METER_TYPES as int)
}

impl StateView {
    /// The rule table is complete, the visibility memory is well formed,
    /// the campaign is planned, and the selected meter is one of the active
    /// meters.
    pub open spec fn wf_base(self) -> bool {
        &&& self.rules.len() == NUM_METER_TYPES
        &&& self.grid.wf()
        &&& self.planned()
        &&& self.selected_meter matches Some(t) ==> self.active_meters.contains(t)
    }

    /// Whether the campaign is planned: it has its fixed number of levels
    /// and the level cursor points at one of them.
    pub open spec fn planned(self) -> bool {
        self.levels.len() == NUM_LEVELS && self.level_index < NUM_LEVELS
    }

    /// The state is well formed: the engine was just built, or its
    /// campaign is planned and [`StateView::wf_played`] holds.
    pub open spec fn wf(self) -> bool {
        self.fresh() || self.wf_played()
    }

    /// An engine that was just built: nothing is planned, queued, selected
    /// or held in the batch buffers.
    pub open spec fn fresh(self) -> bool {
        &&& self.stage is Boot
        &&& self.rules.len() == NUM_METER_TYPES
        &&& self.grid.wf()
        &&& self.levels.len() == 0
        &&& self.level_index == 0
        &&& self.selected_meter is None
        &&& self.swap == SwapView::empty()
    }

    /// The state of an engine whose campaign is planned is well formed:
    /// besides [`StateView::wf_base`], the batch buffers hold exactly what
    /// the stage works on, positions point into what they index, and the
    /// phase is the one the stage belongs to.
    pub open spec fn wf_played(self) -> bool {
        &&& self.wf_base()
        &&& match self.stage {
            Stage::Applying(ctx) => {
                &&& ctx.next < self.swap.changes.len()
                &&& self.swap.animations.len() == 0
                &&& ctx.after matches After::Npc(c) ==> c.index < self.npc_order.len()
            },
            Stage::Acting(c) => self.swap == SwapView::empty() && c.index < self.npc_order.len(),
            Stage::Stepping(at) => at < self.swap.animations.len() && self.swap.changes.len() == 0,
            Stage::Populating { .. } => self.swap.animations.len() == 0,
            Stage::Prechecking => self.swap == SwapView::empty() && self.turn is Player,
            Stage::Refreshing => self.swap == SwapView::empty() && self.turn is Npcs,
            _ => self.swap == SwapView::empty(),
        }
    }

    /// Whether the next step consumes an input: the engine is between two
    /// steps, no animation is pending, and the phase is the player's.
    pub open spec fn wants_input(self) -> bool {
        self.stage is Ready && self.messages.animations.len() == 0 && self.turn is Player
    }

    /// Whether a level is being played, as opposed to being entered.
    pub open spec fn playing(self) -> bool {
        !(self.stage is Boot || self.stage is Generating || self.stage is Populating)
    }

    /// Whether a world goes with this state: it is well formed and, while a
    /// level is played, it has the size of the visibility memory and the
    /// player holds what the active meters and the ledger need.
    pub open spec fn fits(self, world: &World) -> bool {
        &&& world.wf()
        &&& self.playing() ==> {
            &&& self.grid.size == world.size
            &&& equipped(self.active_meters, world.player_components@)
            &&& ledger_supported(self.ledger, world.player_components@)
        }
    }

    /// The end of a step's logic: the line of sight is queried, and the
    /// step then ends with `event`.
    pub open spec fn finishing(self, world: &World, event: Option<Event>) -> (StateView, Request) {
        (
            StateView { stage: Stage::Observing(surfaced(event), false), ..self },
            Request::Observe(world.player_coord),
        )
    }

    /// Hands a change out for application. A change of the player's
    /// position is noted, so that the distance field is rooted anew before
    /// the characters act.
    pub open spec fn handed(self, world: &World, ctx: ApplyCtx, change: Change) -> (
        StateView,
        Request,
    ) {
        let moved = match change {
            Change::Insert(id, Component::Coord(c)) if id == world.player_id => Some(c),
            _ => self.messages.player_moved_to,
        };
        (
            StateView {
                messages: QueuesView { player_moved_to: moved, ..self.messages },
                stage: Stage::Applying(ctx),
                ..self
            },
            Request::Apply(change),
        )
    }

    /// One move of a commit: the next change of the batch is handed out;
    /// when the batch is used up, the changes queued meanwhile become the
    /// next batch; when nothing is queued, the commit is over.
    pub open spec fn settled(self, world: &World, ctx: ApplyCtx) -> (StateView, Request)
        decreases ctx.after.rank(), 1nat,
    {
        if ctx.next < self.swap.changes.len() {
            self.handed(world, ctx, self.swap.changes[ctx.next as int])
        } else {
            let cleared = StateView {
                swap: SwapView { changes: Seq::empty(), ..self.swap },
                ..self
            };
            if self.messages.changes.len() == 0 {
                cleared.committed(world, ctx.after, ctx.acc)
            } else if ctx.passes >= CASCADE_LIMIT {
                (StateView { stage: Stage::Ready, ..cleared }, Request::Fault(Fault::CascadeLimit))
            } else {
                let drained = StateView {
                    swap: SwapView { changes: self.messages.changes, ..self.swap },
                    messages: QueuesView { changes: Seq::empty(), ..self.messages },
                    ..self
                };
                drained.handed(
                    world,
                    ApplyCtx { next: 0, passes: (ctx.passes + 1) as u32, ..ctx },
                    self.messages.changes[0],
                )
            }
        }
    }

    /// What follows a finished commit that kept `event`.
    pub open spec fn committed(self, world: &World, after: After, event: Option<Event>) -> (
        StateView,
        Request,
    )
        decreases after.rank(), 0nat,
    {
        match after {
            After::Player => {
                let turned = StateView {
                    ledger: ledger_ticked(self.ledger),
                    messages: queued(
                        self.messages,
                        ledger_changes(self.ledger, world.player_id, world.player_components@),
                    ),
                    ..self
                };
                turned.settled(world, ApplyCtx::fresh(After::Ledger(event)))
            },
            After::Ledger(kept) => self.finishing(world, kept),
            After::Npc(ctx) => self.absorbed(world, ctx, event),
            After::Animation => self.finishing(world, event),
        }
    }

    /// The next character of the order is told to act; after the last one
    /// the pass ends with the alert that is pending, if any.
    pub open spec fn next_npc(self, world: &World, ctx: NpcCtx) -> (StateView, Request) {
        if ctx.index < self.npc_order.len() {
            (
                StateView { stage: Stage::Acting(ctx), ..self },
                Request::Act(self.npc_order[ctx.index as int]),
            )
        } else {
            self.finishing(world, ctx.pending)
        }
    }

    /// What the event of one character's action does to the pass, in the
    /// pass of all characters and in that of the fast ones alike. A
    /// terminal event ends the pass at once and is its event. An alert does
    /// not end the pass: it is kept for the end of the pass, where a later
    /// alert replaces it.
    pub open spec fn absorbed(self, world: &World, ctx: NpcCtx, event: Option<Event>) -> (
        StateView,
        Request,
    ) {
        if is_terminal(event) {
            self.finishing(world, event)
        } else {
            self.next_npc(
                world,
                NpcCtx {
                    index: (ctx.index + 1) as usize,
                    pending: if event is Some {
                        event
                    } else {
                        ctx.pending
                    },
                },
            )
        }
    }

    /// The start of a pass over the characters: those that came into sight
    /// wake, countdowns advance (in the pass of all characters), the phase
    /// moves on, and the characters that take a turn are ordered by their
    /// distance to the player.
    pub open spec fn mustered(self, world: &World, fast_only: bool) -> (StateView, Request) {
        let roll = muster_roll(world.npcs@, self.grid, world.count, fast_only);
        let called = StateView {
            messages: queued(
                self.messages,
                muster_changes(world.npcs@, self.grid, world.count, fast_only),
            ),
            npc_order: ids(by_distance(roll)),
            turn: if !fast_only && any_fast(world.npcs@) {
                TurnState::FastNpcs
            } else {
                TurnState::Player
            },
            ..self
        };
        called.next_npc(world, NpcCtx { index: 0, pending: None })
    }

    /// The round of all characters begins by rooting the distance field
    /// anew if the player has moved.
    pub open spec fn rounding(self, world: &World) -> (StateView, Request) {
        match self.messages.player_moved_to {
            Some(c) => (
                StateView {
                    messages: QueuesView { player_moved_to: None, ..self.messages },
                    stage: Stage::Refreshing,
                    ..self
                },
                Request::RefreshDistances(c),
            ),
            None => self.mustered(world, false),
        }
    }

    /// Whether an animation waits for a later pass: it declares a channel
    /// that was already visited in this pass.
    pub open spec fn defers(self, animation: Animation) -> bool {
        animation.channel matches Some(c) && self.seen.contains(c)
    }

    /// Goes through the batch of animations from position `from`: deferred
    /// animations are queued again unchanged, the first other one is handed
    /// out to be stepped; after the last one, what the animations produced
    /// is committed.
    pub open spec fn stepping(self, world: &World, from: int) -> (StateView, Request)
        decreases self.swap.animations.len() - from,
    {
        if from < 0 || from >= self.swap.animations.len() {
            let over = StateView {
                swap: SwapView { animations: Seq::empty(), ..self.swap },
                ..self
            };
            over.settled(world, ApplyCtx::fresh(After::Animation))
        } else {
            let animation = self.swap.animations[from];
            if self.defers(animation) {
                let deferred = StateView {
                    messages: QueuesView {
                        animations: self.messages.animations.push(animation),
                        ..self.messages
                    },
                    ..self
                };
                deferred.stepping(world, from + 1)
            } else {
                (
                    StateView { stage: Stage::Stepping(from as usize), ..self },
                    Request::Step(animation),
                )
            }
        }
    }

    /// What the report of a stepped animation does: a finished animation is
    /// dropped, a continuing one is queued again, and a channel it reports
    /// is marked as visited; the pass then goes on behind it.
    pub open spec fn stepped(self, world: &World, at: int, status: AnimationStatus) -> (
        StateView,
        Request,
    ) {
        let animation = self.swap.animations[at];
        let again = QueuesView {
            animations: self.messages.animations.push(animation),
            ..self.messages
        };
        let noted = match status {
            AnimationStatus::Finished => self,
            AnimationStatus::Continuing => StateView { messages: again, ..self },
            AnimationStatus::ContinuingOnChannel(c) => StateView {
                messages: again,
                seen: self.seen.insert(c),
                ..self
            },
        };
        noted.stepping(world, at + 1)
    }

    /// A step devoted to the animations: no channel is visited yet, and the
    /// pending animations become the batch.
    pub open spec fn animating(self, world: &World) -> (StateView, Request) {
        let drained = StateView {
            seen: Set::empty(),
            swap: SwapView { animations: self.messages.animations, ..self.swap },
            messages: QueuesView { animations: Seq::empty(), ..self.messages },
            ..self
        };
        drained.stepping(world, 0)
    }

    /// What the player's input leads to before anything is validated: the
    /// state with the changes of the action queued, and `Some` event if the
    /// turn ends here without being resolved.
    pub open spec fn decided(self, world: &World, input: Input) -> (StateView, Option<Option<Event>>) {
        match input {
            Input::Direction(d) => {
                let outcome = match self.selected_meter {
                    None => Some(walk_outcome(world, d)),
                    Some(ActiveMeterType::Blink) => Some(blink_outcome(world, d)),
                    Some(ActiveMeterType::RailGun) => Some(rail_gun_outcome(world, d)),
                    Some(_) => None,
                };
                match outcome {
                    None => (self, Some(None)),
                    Some(Err(alert)) => (
                        StateView { selected_meter: None, ..self },
                        Some(alerted(Some(alert))),
                    ),
                    Some(Ok(changes)) => (
                        StateView {
                            selected_meter: None,
                            messages: queued(self.messages, changes),
                            ..self
                        },
                        None,
                    ),
                }
            },
            Input::ActiveMeterSelect(slot) => {
                if slot.index < self.active_meters.len() {
                    let typ = self.active_meters[slot.index as int];
                    match asks_direction(typ) {
                        Some(alert) => (
                            StateView { selected_meter: Some(typ), ..self },
                            Some(alerted(Some(alert))),
                        ),
                        None => match instant_outcome(world, typ) {
                            Err(alert) => (self, Some(alerted(Some(alert)))),
                            Ok(changes) => (
                                StateView { messages: queued(self.messages, changes), ..self },
                                None,
                            ),
                        },
                    }
                } else {
                    (self, Some(alerted(Some(Alert::NoSuchMeter))))
                }
            },
            Input::MeterDeselect => (StateView { selected_meter: None, ..self }, Some(None)),
            Input::Wait => (self, None),
        }
    }

    /// The player's turn: an input that does not resolve the turn ends the
    /// step with its alert; any other has its changes validated.
    pub open spec fn player_turn(self, world: &World, input: Input) -> (StateView, Request) {
        let (next, ended) = self.decided(world, input);
        match ended {
            Some(event) => next.finishing(world, event),
            None => (StateView { stage: Stage::Prechecking, ..next }, Request::Precheck),
        }
    }

    /// What the verdict of the rules does: a rejected batch is discarded and
    /// the step ends with the alert; an accepted one is committed, and the
    /// characters are next.
    pub open spec fn prechecked(self, world: &World, verdict: Verdict) -> (StateView, Request) {
        match verdict {
            Verdict::Reject(alert) => {
                let discarded = StateView {
                    messages: QueuesView { changes: Seq::empty(), ..self.messages },
                    ..self
                };
                discarded.finishing(world, alerted(alert))
            },
            Verdict::Accept => {
                let resolved = StateView { turn: TurnState::Npcs, ..self };
                resolved.settled(world, ApplyCtx::fresh(After::Player))
            },
        }
    }

    /// One step of the simulation, from a state that is between steps.
    /// Pending animations take the whole step; otherwise the phase decides.
    pub open spec fn ticked(self, world: &World, input: Option<Input>) -> (StateView, Request) {
        if !(self.stage is Ready) {
            (self, Request::Fault(Fault::OutOfTurn))
        } else if self.messages.animations.len() > 0 {
            self.animating(world)
        } else {
            match self.turn {
                TurnState::Player => match input {
                    Some(input) => self.player_turn(world, input),
                    None => self.finishing(world, None),
                },
                TurnState::Npcs => self.rounding(world),
                TurnState::FastNpcs => self.mustered(world, true),
            }
        }
    }

    /// The end of a line-of-sight query: the memory is reconciled at the
    /// world's tick, and the step ends, or the distance field is rooted.
    pub open spec fn sighted(self, world: &World, sightings: Seq<SightingView>) -> (
        StateView,
        Request,
    ) {
        let seen = StateView { grid: self.grid.reconciled(world.count, sightings), ..self };
        match self.stage {
            Stage::Observing(event, true) => (
                StateView { stage: Stage::Rooting, ..seen },
                Request::RefreshDistances(world.player_coord),
            ),
            Stage::Observing(event, false) => (
                StateView { stage: Stage::Ready, ..seen },
                Request::Done(event),
            ),
            _ => (self, Request::Fault(Fault::OutOfTurn)),
        }
    }
    /// The first move of a freshly built engine once the campaign is
    /// planned: the campaign is taken, and its first level is to be
    /// generated. Outside the `Boot` stage nothing changes.
    pub open spec fn started(self, levels: Seq<TerrainInfo>) -> (StateView, Request) {
        if self.stage is Boot {
            (
                StateView {
                    levels,
                    level_index: 0,
                    stage: Stage::Generating { first: true, upgrade: None },
                    ..self
                },
                Request::Generate(levels[0]),
            )
        } else {
            (self, Request::Fault(Fault::OutOfTurn))
        }
    }

    /// The first move of a freshly built engine: a campaign is planned from
    /// a pool of objectives that is left to chance, and the engine starts
    /// on it.
    pub open spec fn starting(self, next: StateView, r: Request) -> bool {
        exists|pool: Seq<GoalType>|
            valid_pool(pool) && (next, r) == #[trigger] self.started(planned(pool))
    }

    /// Leaving a level: the level cursor advances, the player's components
    /// but the position are kept for the new level, and the new level is to
    /// be generated.
    pub open spec fn switching(self, world: &World, upgrade: Option<MeterType>) -> (
        StateView,
        Request,
    ) {
        if !(self.stage is Ready) {
            (self, Request::Fault(Fault::OutOfTurn))
        } else if self.level_index + 1 >= self.levels.len() {
            (self, Request::Fault(Fault::NoNextLevel))
        } else {
            (
                StateView {
                    carry: carried_over(world.player_components@),
                    level_index: (self.level_index + 1) as usize,
                    stage: Stage::Generating { first: false, upgrade },
                    ..self
                },
                Request::Generate(self.levels[self.level_index + 1]),
            )
        }
    }

    /// Whether the upgrade is granted on arrival: one was chosen, and
    /// neither the new player entity nor what is carried over holds it.
    pub open spec fn grants(self, world: &World, upgrade: Option<MeterType>) -> bool {
        upgrade matches Some(u) && !has_component(
            world.player_components@,
            ComponentType::Meter(u),
        ) && !has_component(self.carry, ComponentType::Meter(u))
    }

    /// Arriving in a generated level: what was carried over goes to the new
    /// player entity, followed by the upgrade if it is granted, which also
    /// joins the meter lists and the ledger.
    pub open spec fn arrived(self, world: &World, upgrade: Option<MeterType>) -> (
        StateView,
        Request,
    ) {
        let carried = transplanted(world.player_id, self.carry);
        let moved = StateView {
            swap: SwapView { changes: carried, ..self.swap },
            carry: Seq::empty(),
            stage: Stage::Populating { first: false },
            ..self
        };
        if self.grants(world, upgrade) {
            let u = upgrade.unwrap();
            let granted = carried.push(
                Change::Insert(
                    world.player_id,
                    Component::Meter(u, self.rules[u.index_spec()].initial),
                ),
            );
            (
                StateView {
                    swap: SwapView { changes: granted, ..self.swap },
                    active_meters: match u.active_or_passive_spec() {
                        ActiveOrPassive::Active(a) => self.active_meters.push(a),
                        ActiveOrPassive::Passive(_) => self.active_meters,
                    },
                    passive_meters: match u.active_or_passive_spec() {
                        ActiveOrPassive::Active(_) => self.passive_meters,
                        ActiveOrPassive::Passive(p) => self.passive_meters.push(p),
                    },
                    ledger: enrolled(self.ledger, self.rules, u),
                    ..moved
                },
                Request::Populate,
            )
        } else {
            (moved, Request::Populate)
        }
    }

    /// What the draw for the first level leads to: the meter kind that was
    /// drawn is to be committed to the player with the meter the rules give
    /// it; if there was none to draw, the engine is back where it started.
    pub open spec fn granted(self, world: &World, drawn: Option<MeterType>) -> (StateView, Request) {
        match drawn {
            None => (StateView { stage: Stage::Boot, ..self }, Request::Fault(Fault::NoMeterToGrant)),
            Some(typ) => (
                StateView {
                    swap: SwapView {
                        changes: seq![
                            Change::Insert(
                                world.player_id,
                                Component::Meter(typ, self.rules[typ.index_spec()].initial),
                            ),
                        ],
                        ..self.swap
                    },
                    stage: Stage::Populating { first: true },
                    ..self
                },
                Request::Populate,
            ),
        }
    }

    /// The first level was generated: one meter kind the player does not
    /// hold is drawn and granted. Which one is left to chance; nothing is
    /// drawn only if the player holds them all.
    pub open spec fn equipping(self, world: &World, next: StateView, r: Request) -> bool {
        exists|drawn: Option<MeterType>|
            {
                &&& drawn is None <==> unequipped(world.player_components@).len() == 0
                &&& drawn matches Some(typ) ==> !has_component(
                    world.player_components@,
                    ComponentType::Meter(typ),
                )
                &&& (next, r) == #[trigger] self.granted(world, drawn)
            }
    }

    /// The level is populated: the player has moved to where the level put
    /// it, the phase is the player's, and the visibility memory is blank.
    /// In the first level the meter lists and the ledger are read off the
    /// player's components; in a later one the line of sight is queried.
    /// Either way the distance field is rooted in the end.
    pub open spec fn populated(self, world: &World, first: bool) -> (StateView, Request) {
        let entered = StateView {
            swap: SwapView { changes: Seq::empty(), ..self.swap },
            messages: QueuesView { player_moved_to: Some(world.player_coord), ..self.messages },
            turn: TurnState::Player,
            grid: GridView::blank(world.size),
            ..self
        };
        if first {
            let active = actives_of(world.player_components@);
            let passive = passives_of(world.player_components@);
            (
                StateView {
                    active_meters: active,
                    passive_meters: passive,
                    selected_meter: None,
                    ledger: enrolled_all(
                        enrolled_all(Seq::empty(), self.rules, active_types(active)),
                        self.rules,
                        passive_types(passive),
                    ),
                    stage: Stage::Rooting,
                    ..entered
                },
                Request::RefreshDistances(world.player_coord),
            )
        } else {
            (
                StateView { stage: Stage::Observing(None, true), ..entered },
                Request::Observe(world.player_coord),
            )
        }
    }

    /// Whether a reply is answered by chance rather than by
    /// [`StateView::resumed`]: the reply to the generation of the first
    /// level.
    pub open spec fn draws(self, reply: Reply) -> bool {
        self.stage matches Stage::Generating { first: true, .. } && reply is Generated
    }

    /// What a reply leads to. A reply that does not answer the request the
    /// engine is waiting on changes nothing and is a fault.
    pub open spec fn resumed(self, world: &World, reply: Reply) -> (StateView, Request) {
        match (self.stage, reply) {
            (Stage::Prechecking, Reply::Prechecked(verdict)) => self.prechecked(world, verdict),
            (Stage::Applying(ctx), Reply::Applied(event)) => self.settled(
                world,
                ApplyCtx { next: (ctx.next + 1) as usize, acc: first_of(ctx.acc, event), ..ctx },
            ),
            (Stage::Refreshing, Reply::DistancesRefreshed) => self.mustered(world, false),
            (Stage::Acting(c), Reply::Acted) => self.settled(world, ApplyCtx::fresh(After::Npc(c))),
            (Stage::Stepping(at), Reply::Stepped(status)) => self.stepped(world, at as int, status),
            (Stage::Observing(_, _), Reply::Sighted(sightings)) => self.sighted(
                world,
                sighting_views(sightings@),
            ),
            (Stage::Rooting, Reply::DistancesRefreshed) => (
                StateView { stage: Stage::Ready, ..self },
                Request::Done(None),
            ),
            (Stage::Generating { first: false, upgrade }, Reply::Generated) => self.arrived(
                world,
                upgrade,
            ),
            (Stage::Populating { first }, Reply::Populated) => self.populated(world, first),
            _ => (self, Request::Fault(Fault::OutOfTurn)),
        }
    }
}

} // verus!
