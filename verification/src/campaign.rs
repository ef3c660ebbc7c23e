//! Building the engine, entering the first level and moving on to the
//! next.

use vstd::prelude::*;
use crate::change::{contains_type, has_component, Change, Component, ComponentType};
use crate::coord::Size;
use crate::ledger::{PlayerTurnEvent, PlayerTurnEventEntry};
use crate::levels::{plan_levels, TerrainInfo, NUM_LEVELS};
use crate::meter::{
    ActiveMeterType, ActiveOrPassive, MeterRule, MeterType, PassiveMeterType, Rules,
    NUM_METER_TYPES,
};
use crate::model::{
    active_types, actives_of, carried_over, enrolled, enrolled_all, passive_types, passives_of,
    transplanted, unequipped, unequipped_upto, StateView,
};
use crate::protocol::{Fault, Request, Stage, TurnState};
use crate::queue::{MessageQueues, MessageQueuesSwap, QueuesView, SwapView};
use crate::random::{seeded, seeded_generator, shuffle};
use crate::state::{lemma_state_generator, lemma_state_view, State};
use crate::visibility::{GridView, VisibilityGrid};
use crate::world::World;

verus! {

broadcast use {lemma_state_view, lemma_state_generator};

impl StateView {
    /// The state of an engine that was just built.
    pub open spec fn boot(rng_seed: usize, rules: Seq<MeterRule>) -> StateView {
        StateView {
            messages: QueuesView::empty(),
            swap: SwapView::empty(),
            npc_order: Seq::empty(),
            seen: Set::empty(),
            turn: TurnState::Player,
            rules,
            active_meters: Seq::empty(),
            passive_meters: Seq::empty(),
            selected_meter: None,
            levels: Seq::empty(),
            level_index: 0,
            ledger: Seq::empty(),
            grid: GridView::blank(Size { width: 0, height: 0 }),
            rng_seed,
            carry: Seq::empty(),
            stage: Stage::Boot,
        }
    }
}

/// No kind among the unequipped ones is held, and every kind that is not
/// held is among them.
pub proof fn lemma_unequipped(components: Seq<Component>, upto: int)
    requires
        0 <= upto <= NUM_METER_TYPES,
    ensures
        forall|t: MeterType|
            unequipped_upto(components, upto).contains(t) <==> (t.index_spec() < upto
                && !has_component(components, ComponentType::Meter(t))),
    decreases upto,
{
    if upto > 0 {
        lemma_unequipped(components, upto - 1);
        let front = unequipped_upto(components, upto - 1);
        let typ = MeterType::all_spec()[upto - 1];
        assert(typ.index_spec() == upto - 1);
        assert forall|t: MeterType|
            unequipped_upto(components, upto).contains(t) <==> (t.index_spec() < upto
                && !has_component(components, ComponentType::Meter(t))) by {
            assert(MeterType::all_spec()[t.index_spec()] == t);
            if has_component(components, ComponentType::Meter(typ)) {
            } else {
                let out = front.push(typ);
                if out.contains(t) {
                    let i = choose|i: int| 0 <= i < out.len() && out[i] == t;
                    if i < front.len() {
                        assert(front[i] == t);
                        assert(front.contains(t));
                    }
                }
                if t == typ {
                    assert(out[front.len() as int] == t);
                } else if front.contains(t) {
                    let i = choose|i: int| 0 <= i < front.len() && front[i] == t;
                    assert(out[i] == t);
                }
            }
        }
    }
}

/// How many upgrades are offered at most.
pub const NUM_CHOICES: usize = 3;

/// The meter kinds the player does not hold, in index order.
pub fn unequipped_meters(components: &Vec<Component>) -> (types: Vec<MeterType>)
    ensures
        types@ == unequipped(components@),
{
    let all = MeterType::all();
    let mut types: Vec<MeterType> = Vec::new();
    let mut i: usize = 0;
    while i < NUM_METER_TYPES
        invariant
            i <= NUM_METER_TYPES,
            all@ == MeterType::all_spec(),
            types@ == unequipped_upto(components@, i as int),
        decreases NUM_METER_TYPES - i,
    {
        let typ = all[i];
        if !contains_type(components, ComponentType::Meter(typ)) {
            types.push(typ);
        }
        i += 1;
    }
    types
}

/// The meter kinds the player does not hold, in random order.
pub fn shuffled_unequipped_meters(components: &Vec<Component>, rng: &mut rand::rngs::StdRng) -> (types:
    Vec<MeterType>)
    ensures
        types@.to_multiset() == unequipped(components@).to_multiset(),
{
    let mut types = unequipped_meters(components);
    shuffle(&mut types, rng);
    types
}

/// The kinds that are offered of an order of kinds: its first
/// [`NUM_CHOICES`], or all of them if there are fewer.
pub open spec fn offered(order: Seq<MeterType>) -> Seq<MeterType> {
    order.take(
        if order.len() < NUM_CHOICES {
            order.len() as int
        } else {
            NUM_CHOICES as int
        },
    )
}

/// The kinds that are offered of an order of kinds.
pub fn first_choices(order: &Vec<MeterType>) -> (choices: Vec<MeterType>)
    ensures
        choices@ == offered(order@),
{
    let num_choices = if order.len() < NUM_CHOICES {
        order.len()
    } else {
        NUM_CHOICES
    };
    let mut choices: Vec<MeterType> = Vec::new();
    let mut i: usize = 0;
    while i < num_choices
        invariant
            i <= num_choices <= order@.len(),
            choices@ == order@.take(i as int),
        decreases num_choices - i,
    {
        choices.push(order[i]);
        assert(order@.take(i + 1) =~= order@.take(i as int).push(order@[i as int]));
        i += 1;
    }
    choices
}

impl State {
    /// Builds an engine for a new campaign.
    ///
    /// The generator is seeded with `rng_seed`. Nothing is drawn yet and no
    /// level is entered: [`State::start`] plans the campaign and asks for
    /// the first level.
    pub fn new(rng_seed: usize, rules: Rules) -> (state: State)
        requires
            rules.wf(),
        ensures
            state@.wf(),
            state@ == StateView::boot(rng_seed, rules@),
            state.generator() == seeded_generator(rng_seed as u64),
    {
        State {
            messages: MessageQueues::new(),
            swap_messages: MessageQueuesSwap::new(),
            npc_order: Vec::new(),
            seen_animation_channels: std::collections::HashSet::new(),
            rng: seeded(rng_seed as u64),
            turn: TurnState::Player,
            rules,
            active_meters: Vec::new(),
            passive_meters: Vec::new(),
            selected_meter: None,
            levels: Vec::new(),
            level_index: 0,
            player_turn_events: Vec::new(),
            visibility_grid: VisibilityGrid::new(Size { width: 0, height: 0 }),
            rng_seed,
            carry: Vec::new(),
            stage: Stage::Boot,
        }
    }

    /// Plans the campaign and asks for its first level. Outside the `Boot`
    /// stage nothing changes and the request is `Fault(OutOfTurn)`.
    pub fn start(&mut self) -> (r: Request)
        requires
            old(self)@.wf(),
        ensures
            if old(self)@.stage is Boot {
                old(self)@.starting(final(self)@, r)
            } else {
                final(self)@ == old(self)@ && r == Request::Fault(Fault::OutOfTurn)
            },
            final(self)@.wf(),
    {
        match self.stage {
            Stage::Boot => {
                let levels = plan_levels(&mut self.rng);
                self.take_campaign(levels)
            },
            _ => Request::Fault(Fault::OutOfTurn),
        }
    }

    /// Starts on a campaign that was planned.
    pub(crate) fn take_campaign(&mut self, levels: Vec<TerrainInfo>) -> (r: Request)
        requires
            old(self)@.wf(),
            levels@.len() == NUM_LEVELS,
        ensures
            (final(self)@, r) == old(self)@.started(levels@),
            final(self)@.wf(),
    {
        match self.stage {
            Stage::Boot => {
                self.levels = levels;
                self.level_index = 0;
                self.stage = Stage::Generating { first: true, upgrade: None };
                Request::Generate(self.levels[0])
            },
            _ => Request::Fault(Fault::OutOfTurn),
        }
    }

    /// Leaves the level for the next one without an upgrade.
    pub fn switch_levels_no_upgrade(&mut self, world: &World) -> (r: Request)
        requires
            old(self)@.wf(),
        ensures
            (final(self)@, r) == old(self)@.switching(world, None),
            final(self)@.wf(),
    {
        self.switch_levels(world, None)
    }

    /// Leaves the level for the next one and takes `upgrade` along.
    pub fn switch_levels_upgrade(&mut self, world: &World, upgrade: MeterType) -> (r: Request)
        requires
            old(self)@.wf(),
        ensures
            (final(self)@, r) == old(self)@.switching(world, Some(upgrade)),
            final(self)@.wf(),
    {
        self.switch_levels(world, Some(upgrade))
    }

    /// Up to three kinds of meters the player does not hold, drawn at
    /// random: what is offered of a random order of all such kinds.
    pub fn upgrade_choices(&mut self, world: &World) -> (choices: Vec<MeterType>)
        ensures
            final(self)@ == old(self)@,
            exists|order: Seq<MeterType>|
                {
                    &&& order.to_multiset() == unequipped(world.player_components@).to_multiset()
                    &&& choices@ == offered(order)
                },
    {
        let types = shuffled_unequipped_meters(&world.player_components, &mut self.rng);
        first_choices(&types)
    }

    /// Leaves the level: `world` is the one that is left.
    fn switch_levels(&mut self, world: &World, upgrade: Option<MeterType>) -> (r: Request)
        requires
            old(self)@.wf(),
        ensures
            (final(self)@, r) == old(self)@.switching(world, upgrade),
            final(self)@.wf(),
    {
        match self.stage {
            Stage::Ready => {},
            _ => {
                return Request::Fault(Fault::OutOfTurn);
            },
        }
        let count = self.levels.len();
        assert(self.level_index < count);
        if self.level_index + 1 >= count {
            return Request::Fault(Fault::NoNextLevel);
        }
        let mut carry: Vec<Component> = Vec::new();
        let mut i: usize = 0;
        while i < world.player_components.len()
            invariant
                i <= world.player_components@.len(),
                carry@ == carried_over(world.player_components@.take(i as int)),
            decreases world.player_components@.len() - i,
        {
            let c = world.player_components[i];
            assert(world.player_components@.take(i + 1).drop_last()
                =~= world.player_components@.take(i as int));
            match c.typ() {
                ComponentType::Coord => {},
                _ => {
                    carry.push(c);
                },
            }
            i += 1;
        }
        assert(world.player_components@.take(world.player_components@.len() as int)
            =~= world.player_components@);
        self.carry = carry;
        self.level_index = self.level_index + 1;
        self.stage = Stage::Generating { first: false, upgrade };
        Request::Generate(self.levels[self.level_index])
    }

    /// The first level was generated: draws one meter the player lacks and
    /// grants it.
    pub(crate) fn equip(&mut self, world: &World) -> (r: Request)
        requires
            old(self)@.wf(),
            old(self)@.stage matches Stage::Generating { first: true, .. },
        ensures
            old(self)@.equipping(world, final(self)@, r),
            final(self)@.wf(),
    {
        broadcast use vstd::seq_lib::group_to_multiset_ensures;

        let mut types = shuffled_unequipped_meters(&world.player_components, &mut self.rng);
        let ghost shuffled = types@;
        proof {
            assert(shuffled.to_multiset().len() == shuffled.len());
            assert(unequipped(world.player_components@).to_multiset().len() == unequipped(
                world.player_components@,
            ).len());
        }
        let drawn = types.pop();
        proof {
            if let Some(typ) = drawn {
                assert(shuffled.contains(typ)) by {
                    assert(shuffled[shuffled.len() - 1] == typ);
                }
                assert(shuffled.to_multiset().count(typ) > 0);
                assert(unequipped(world.player_components@).contains(typ));
                lemma_unequipped(world.player_components@, NUM_METER_TYPES as int);
            }
        }
        self.grant(world, drawn)
    }

    /// Grants the meter that was drawn for the first level, or reports that
    /// there was none to draw.
    pub(crate) fn grant(&mut self, world: &World, drawn: Option<MeterType>) -> (r: Request)
        requires
            old(self)@.wf(),
            old(self)@.stage matches Stage::Generating { first: true, .. },
        ensures
            (final(self)@, r) == old(self)@.granted(world, drawn),
            final(self)@.wf(),
    {
        match drawn {
            None => {
                self.stage = Stage::Boot;
                Request::Fault(Fault::NoMeterToGrant)
            },
            Some(typ) => {
                let rule = self.rules.get(typ);
                self.swap_messages.changes.push(
                    Change::Insert(world.player_id, Component::Meter(typ, rule.initial)),
                );
                self.stage = Stage::Populating { first: true };
                assert(self@.swap.changes =~= seq![
                    Change::Insert(
                        world.player_id,
                        Component::Meter(typ, old(self)@.rules[typ.index_spec()].initial),
                    ),
                ]);
                Request::Populate
            },
        }
    }

    /// Adds the ledger entry of a meter kind, if the rules schedule one.
    fn enroll(&mut self, typ: MeterType)
        requires
            old(self)@.rules.len() == NUM_METER_TYPES,
        ensures
            final(self)@ == (StateView {
                ledger: enrolled(old(self)@.ledger, old(self)@.rules, typ),
                ..old(self)@
            }),
    {
        match self.rules.get(typ).periodic {
            Some(p) => {
                let event = match typ.active_or_passive() {
                    ActiveOrPassive::Active(a) => PlayerTurnEvent::ChangeActiveMeter(a, p.change),
                    ActiveOrPassive::Passive(q) => PlayerTurnEvent::ChangePassiveMeter(q, p.change),
                };
                self.player_turn_events.push(PlayerTurnEventEntry::full(event, p.turns));
            },
            None => {},
        }
    }

    /// A later level was generated: hands over what the player carries.
    pub(crate) fn arrive(&mut self, world: &World, upgrade: Option<MeterType>) -> (r: Request)
        requires
            old(self)@.wf(),
            old(self)@.stage matches Stage::Generating { first: false, .. },
        ensures
            (final(self)@, r) == old(self)@.arrived(world, upgrade),
            final(self)@.wf(),
    {
        let mut i: usize = 0;
        assert(self@.swap.changes =~= transplanted(world.player_id, self@.carry.take(0)));
        while i < self.carry.len()
            invariant
                i <= self@.carry.len(),
                self@ == (StateView {
                    swap: SwapView {
                        changes: transplanted(world.player_id, old(self)@.carry.take(i as int)),
                        ..old(self)@.swap
                    },
                    ..old(self)@
                }),
            decreases self@.carry.len() - i,
        {
            let c = self.carry[i];
            self.swap_messages.changes.push(Change::Insert(world.player_id, c));
            assert(self@.swap.changes =~= transplanted(
                world.player_id,
                old(self)@.carry.take(i + 1),
            ));
            i += 1;
        }
        assert(old(self)@.carry.take(old(self)@.carry.len() as int) =~= old(self)@.carry);
        let granted = match upgrade {
            Some(u) => !contains_type(&world.player_components, ComponentType::Meter(u))
                && !contains_type(&self.carry, ComponentType::Meter(u)),
            None => false,
        };
        self.carry.clear();
        self.stage = Stage::Populating { first: false };
        if granted {
            match upgrade {
                Some(u) => {
                    let rule = self.rules.get(u);
                    self.swap_messages.changes.push(
                        Change::Insert(world.player_id, Component::Meter(u, rule.initial)),
                    );
                    match u.active_or_passive() {
                        ActiveOrPassive::Active(a) => {
                            self.active_meters.push(a);
                            proof {
                                lemma_push_keeps_member(
                                    old(self)@.active_meters,
                                    a,
                                    old(self)@.selected_meter,
                                );
                            }
                        },
                        ActiveOrPassive::Passive(p) => {
                            self.passive_meters.push(p);
                        },
                    }
                    self.enroll(u);
                },
                None => {},
            }
        }
        Request::Populate
    }

    /// The level is populated: settles in.
    pub(crate) fn settle_in(&mut self, world: &World, first: bool) -> (r: Request)
        requires
            old(self)@.wf(),
            old(self)@.stage is Populating,
            world.wf(),
        ensures
            (final(self)@, r) == old(self)@.populated(world, first),
            final(self)@.wf(),
    {
        self.swap_messages.changes.clear();
        assert(self@.swap.animations =~= Seq::empty());
        assert(self@.swap =~= SwapView::empty());
        self.messages.player_moved_to = Some(world.player_coord);
        self.turn = TurnState::Player;
        let remembered = self.visibility_grid.size();
        if remembered.width == world.size.width && remembered.height == world.size.height {
            self.visibility_grid.clear();
        } else {
            self.visibility_grid = VisibilityGrid::new(world.size);
        }
        if !first {
            self.stage = Stage::Observing(None, true);
            return Request::Observe(world.player_coord);
        }
        let mut active: Vec<ActiveMeterType> = Vec::new();
        let mut passive: Vec<PassiveMeterType> = Vec::new();
        let mut i: usize = 0;
        while i < world.player_components.len()
            invariant
                i <= world.player_components@.len(),
                active@ == actives_of(world.player_components@.take(i as int)),
                passive@ == passives_of(world.player_components@.take(i as int)),
            decreases world.player_components@.len() - i,
        {
            assert(world.player_components@.take(i + 1).drop_last()
                =~= world.player_components@.take(i as int));
            match world.player_components[i] {
                Component::Meter(t, _) => match t.active_or_passive() {
                    ActiveOrPassive::Active(a) => {
                        active.push(a);
                    },
                    ActiveOrPassive::Passive(p) => {
                        passive.push(p);
                    },
                },
                _ => {},
            }
            i += 1;
        }
        assert(world.player_components@.take(world.player_components@.len() as int)
            =~= world.player_components@);
        self.active_meters = active;
        self.passive_meters = passive;
        self.selected_meter = None;
        self.player_turn_events = Vec::new();
        let ghost base = self@;
        let mut k: usize = 0;
        assert(active_types(self@.active_meters).take(0) =~= Seq::<MeterType>::empty());
        while k < self.active_meters.len()
            invariant
                k <= self@.active_meters.len(),
                base.rules.len() == NUM_METER_TYPES,
                self@ == (StateView {
                    ledger: enrolled_all(
                        Seq::empty(),
                        base.rules,
                        active_types(base.active_meters).take(k as int),
                    ),
                    ..base
                }),
            decreases self@.active_meters.len() - k,
        {
            let typ = self.active_meters[k].typ();
            assert(active_types(base.active_meters).take(k + 1).drop_last() =~= active_types(
                base.active_meters,
            ).take(k as int));
            self.enroll(typ);
            k += 1;
        }
        assert(active_types(base.active_meters).take(base.active_meters.len() as int)
            =~= active_types(base.active_meters));
        let ghost mid = self@;
        let mut k: usize = 0;
        assert(passive_types(self@.passive_meters).take(0) =~= Seq::<MeterType>::empty());
        while k < self.passive_meters.len()
            invariant
                k <= self@.passive_meters.len(),
                mid.rules.len() == NUM_METER_TYPES,
                self@ == (StateView {
                    ledger: enrolled_all(
                        mid.ledger,
                        mid.rules,
                        passive_types(mid.passive_meters).take(k as int),
                    ),
                    ..mid
                }),
            decreases self@.passive_meters.len() - k,
        {
            let typ = self.passive_meters[k].typ();
            assert(passive_types(mid.passive_meters).take(k + 1).drop_last() =~= passive_types(
                mid.passive_meters,
            ).take(k as int));
            self.enroll(typ);
            k += 1;
        }
        assert(passive_types(mid.passive_meters).take(mid.passive_meters.len() as int)
            =~= passive_types(mid.passive_meters));
        self.stage = Stage::Rooting;
        Request::RefreshDistances(world.player_coord)
    }
}

/// A member of a list stays one when the list grows.
proof fn lemma_push_keeps_member(
    list: Seq<ActiveMeterType>,
    added: ActiveMeterType,
    member: Option<ActiveMeterType>,
)
    requires
        member matches Some(t) ==> list.contains(t),
    ensures
        member matches Some(t) ==> list.push(added).contains(t),
{
    if let Some(t) = member {
        let i = choose|i: int| 0 <= i < list.len() && list[i] == t;
        assert(list.push(added)[i] == t);
    }
}

} // verus!
