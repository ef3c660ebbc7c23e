//! Sequences of calls: that an engine and the engine restored from its
//! snapshot go the same way, and how a step runs its course.

use vstd::prelude::*;
use crate::action::queued;
use crate::change::Change;
use crate::event::Input;
use crate::meter::MeterType;
use crate::model::StateView;
use crate::protocol::{After, ApplyCtx, Reply, Request, Stage};
use crate::queue::{Animation, QueuesView, SwapView};
use crate::world::{World, WorldView};

verus! {

/// One thing the owner of the world does to the engine.
pub enum Call<'a> {
    Tick(World, Option<Input>),
    Resume(World, Reply<'a>),
    Enqueue(Change),
    EnqueueAnimation(Animation),
    SwitchLevels(World, Option<MeterType>),
}

/// Whether the order of the characters is read before it is written anew
/// from a stage: a character was told to act, or its action is committed.
pub open spec fn reads_order(stage: Stage) -> bool {
    stage is Acting || (stage matches Stage::Applying(ctx) && ctx.after is Npc)
}

/// Whether two states are equal but for the seed and, unless asked for,
/// the order of the characters, the visited channels and what is carried
/// to the next level.
pub open spec fn alike(a: StateView, b: StateView, order: bool, seen: bool, carry: bool) -> bool {
    &&& a.messages == b.messages
    &&& a.swap == b.swap
    &&& a.turn == b.turn
    &&& a.rules == b.rules
    &&& a.active_meters == b.active_meters
    &&& a.passive_meters == b.passive_meters
    &&& a.selected_meter == b.selected_meter
    &&& a.levels == b.levels
    &&& a.level_index == b.level_index
    &&& a.ledger == b.ledger
    &&& a.grid == b.grid
    &&& a.stage == b.stage
    &&& order ==> a.npc_order == b.npc_order
    &&& seen ==> a.seen == b.seen
    &&& carry ==> a.carry == b.carry
}

/// Whether two states agree in all that is read before it is written anew:
/// they are equal but for the seed and for what is stale at their stage.
/// The order of the characters is stale unless a pass over them is under
/// way, the visited channels unless an animation is being stepped, and what
/// is carried to the next level unless that level is being generated.
pub open spec fn agree(a: StateView, b: StateView) -> bool {
    alike(a, b, reads_order(a.stage), a.stage is Stepping, a.stage is Generating)
}

/// What a call makes of a state, and the request it is answered with, if it
/// is answered with one.
pub open spec fn called(state: StateView, call: Call) -> (StateView, Option<Request>) {
    match call {
        Call::Tick(world, input) => (
            state.ticked(&world, input).0,
            Some(state.ticked(&world, input).1),
        ),
        Call::Resume(world, reply) => (
            state.resumed(&world, reply).0,
            Some(state.resumed(&world, reply).1),
        ),
        Call::Enqueue(change) => (
            StateView { messages: queued(state.messages, seq![change]), ..state },
            None,
        ),
        Call::EnqueueAnimation(animation) => (
            StateView {
                messages: QueuesView {
                    animations: state.messages.animations.push(animation),
                    ..state.messages
                },
                ..state
            },
            None,
        ),
        Call::SwitchLevels(world, upgrade) => (
            state.switching(&world, upgrade).0,
            Some(state.switching(&world, upgrade).1),
        ),
    }
}

/// Whether a call is answered by chance: it is the reply to the generation
/// of the first level. For every other call, [`called`] is what the engine
/// does.
pub open spec fn is_draw(state: StateView, call: Call) -> bool {
    call matches Call::Resume(_, reply) && state.draws(reply)
}

/// Whether none of a sequence of calls is answered by chance.
pub open spec fn draws_nothing(state: StateView, calls: Seq<Call>) -> bool
    decreases calls.len(),
{
    calls.len() == 0 || (draws_nothing(state, calls.drop_last()) && !is_draw(
        replayed(state, calls.drop_last()),
        calls.last(),
    ))
}

/// The state after a sequence of calls.
pub open spec fn replayed(state: StateView, calls: Seq<Call>) -> StateView
    decreases calls.len(),
{
    if calls.len() == 0 {
        state
    } else {
        called(replayed(state, calls.drop_last()), calls.last()).0
    }
}

/// The answers to a sequence of calls, one for each call.
pub open spec fn answers(state: StateView, calls: Seq<Call>) -> Seq<Option<Request>>
    decreases calls.len(),
{
    if calls.len() == 0 {
        Seq::empty()
    } else {
        answers(state, calls.drop_last()).push(
            called(replayed(state, calls.drop_last()), calls.last()).1,
        )
    }
}

/// A commit goes the same way from two states that are alike.
pub proof fn lemma_settled_agrees(a: StateView, b: StateView, world: &World, ctx: ApplyCtx)
    requires
        alike(a, b, ctx.after is Npc, false, false),
    ensures
        a.settled(world, ctx).1 == b.settled(world, ctx).1,
        agree(a.settled(world, ctx).0, b.settled(world, ctx).0),
{
    reveal_with_fuel(StateView::settled, 3);
    reveal_with_fuel(StateView::committed, 3);
}

/// Going through a batch of animations goes the same way from two states
/// that are alike and have visited the same channels.
pub proof fn lemma_stepping_agrees(a: StateView, b: StateView, world: &World, from: int)
    requires
        alike(a, b, false, true, false),
    ensures
        a.stepping(world, from).1 == b.stepping(world, from).1,
        agree(a.stepping(world, from).0, b.stepping(world, from).0),
    decreases a.swap.animations.len() - from,
{
    let batch = a.swap.animations;
    if from < 0 || from >= batch.len() {
        let over_a = StateView { swap: SwapView { animations: Seq::empty(), ..a.swap }, ..a };
        let over_b = StateView { swap: SwapView { animations: Seq::empty(), ..b.swap }, ..b };
        lemma_settled_agrees(over_a, over_b, world, ApplyCtx::fresh(After::Animation));
    } else if a.defers(batch[from]) {
        let again_a = StateView {
            messages: QueuesView {
                animations: a.messages.animations.push(batch[from]),
                ..a.messages
            },
            ..a
        };
        let again_b = StateView {
            messages: QueuesView {
                animations: b.messages.animations.push(batch[from]),
                ..b.messages
            },
            ..b
        };
        lemma_stepping_agrees(again_a, again_b, world, from + 1);
    }
}

/// Two states that agree answer every call with the same request, and
/// agree afterwards.
pub proof fn lemma_called_agrees(a: StateView, b: StateView, call: Call)
    requires
        agree(a, b),
    ensures
        called(a, call).1 == called(b, call).1,
        agree(called(a, call).0, called(b, call).0),
{
    match call {
        Call::Tick(world, input) => {
            lemma_ticked_agrees(a, b, &world, input);
        },
        Call::Resume(world, reply) => {
            lemma_resumed_agrees(a, b, &world, reply);
        },
        _ => {},
    }
}

/// Two states that agree start a step in the same way.
pub proof fn lemma_ticked_agrees(a: StateView, b: StateView, world: &World, input: Option<Input>)
    requires
        agree(a, b),
    ensures
        a.ticked(world, input).1 == b.ticked(world, input).1,
        agree(a.ticked(world, input).0, b.ticked(world, input).0),
{
    if a.stage is Ready && a.messages.animations.len() > 0 {
        let drained_a = StateView {
            seen: Set::empty(),
            swap: SwapView { animations: a.messages.animations, ..a.swap },
            messages: QueuesView { animations: Seq::empty(), ..a.messages },
            ..a
        };
        let drained_b = StateView {
            seen: Set::empty(),
            swap: SwapView { animations: b.messages.animations, ..b.swap },
            messages: QueuesView { animations: Seq::empty(), ..b.messages },
            ..b
        };
        lemma_stepping_agrees(drained_a, drained_b, world, 0);
    }
}

/// Two states that agree take a reply in the same way.
pub proof fn lemma_resumed_agrees(a: StateView, b: StateView, world: &World, reply: Reply)
    requires
        agree(a, b),
    ensures
        a.resumed(world, reply).1 == b.resumed(world, reply).1,
        agree(a.resumed(world, reply).0, b.resumed(world, reply).0),
{
    match (a.stage, reply) {
        (Stage::Prechecking, Reply::Prechecked(verdict)) => {
            let resolved_a = StateView { turn: crate::protocol::TurnState::Npcs, ..a };
            let resolved_b = StateView { turn: crate::protocol::TurnState::Npcs, ..b };
            lemma_settled_agrees(resolved_a, resolved_b, world, ApplyCtx::fresh(After::Player));
        },
        (Stage::Applying(ctx), Reply::Applied(event)) => {
            lemma_settled_agrees(
                a,
                b,
                world,
                ApplyCtx {
                    next: (ctx.next + 1) as usize,
                    acc: crate::event::first_of(ctx.acc, event),
                    ..ctx
                },
            );
        },
        (Stage::Acting(c), Reply::Acted) => {
            lemma_settled_agrees(a, b, world, ApplyCtx::fresh(After::Npc(c)));
        },
        (Stage::Stepping(at), Reply::Stepped(status)) => {
            let animation = a.swap.animations[at as int];
            let noted_a = match status {
                crate::queue::AnimationStatus::Finished => a,
                crate::queue::AnimationStatus::Continuing => StateView {
                    messages: QueuesView {
                        animations: a.messages.animations.push(animation),
                        ..a.messages
                    },
                    ..a
                },
                crate::queue::AnimationStatus::ContinuingOnChannel(c) => StateView {
                    messages: QueuesView {
                        animations: a.messages.animations.push(animation),
                        ..a.messages
                    },
                    seen: a.seen.insert(c),
                    ..a
                },
            };
            let noted_b = match status {
                crate::queue::AnimationStatus::Finished => b,
                crate::queue::AnimationStatus::Continuing => StateView {
                    messages: QueuesView {
                        animations: b.messages.animations.push(animation),
                        ..b.messages
                    },
                    ..b
                },
                crate::queue::AnimationStatus::ContinuingOnChannel(c) => StateView {
                    messages: QueuesView {
                        animations: b.messages.animations.push(animation),
                        ..b.messages
                    },
                    seen: b.seen.insert(c),
                    ..b
                },
            };
            lemma_stepping_agrees(noted_a, noted_b, world, at + 1);
        },
        _ => {},
    }
}

/// Replays agree: two states that agree answer the same calls with the
/// same requests, one by one, and agree in the end. So the events the
/// steps end with are the same, and so are the visibility memories. A call
/// is answered by chance in the one replay if and only if it is in the
/// other.
pub proof fn lemma_replays_agree(a: StateView, b: StateView, calls: Seq<Call>)
    requires
        agree(a, b),
    ensures
        answers(a, calls) == answers(b, calls),
        agree(replayed(a, calls), replayed(b, calls)),
        replayed(a, calls).grid == replayed(b, calls).grid,
        draws_nothing(a, calls) == draws_nothing(b, calls),
    decreases calls.len(),
{
    if calls.len() > 0 {
        lemma_replays_agree(a, b, calls.drop_last());
        lemma_called_agrees(
            replayed(a, calls.drop_last()),
            replayed(b, calls.drop_last()),
            calls.last(),
        );
    }
}

/// An engine that is saved between two steps, with no meter selected, and
/// the engine restored from the snapshot agree.
pub proof fn lemma_restored_agrees(state: StateView, world: WorldView, next_rng_seed: usize)
    requires
        state.wf(),
        state.stage is Ready,
        state.selected_meter is None,
    ensures
        agree(state, state.saved(world, next_rng_seed).restored()),
{
}

/// Whether a sequence of calls stays within the step that is under way: the
/// engine was not back between two steps before any of the calls.
pub open spec fn unfinished(state: StateView, calls: Seq<Call>) -> bool
    decreases calls.len(),
{
    calls.len() == 0 || (unfinished(state, calls.drop_last()) && !(replayed(
        state,
        calls.drop_last(),
    ).stage is Ready))
}

/// Whether a state is within the player's turn: the action is being
/// validated, or it or the changes of the ledger are being committed.
pub open spec fn in_player_turn(state: StateView) -> bool {
    ||| state.stage is Prechecking
    ||| state.stage matches Stage::Applying(ctx) && (ctx.after is Player || ctx.after is Ledger)
}

/// Whether a step carries the terminal event `event` to its end: it is the
/// event kept by the commit under way, or the event the commit of the
/// ledger's changes waits with, or the event the line of sight is queried
/// with.
pub open spec fn carries(state: StateView, event: crate::event::Event) -> bool {
    match state.stage {
        Stage::Applying(ctx) => match ctx.after {
            After::Ledger(kept) => kept == Some(event),
            _ => ctx.acc == Some(event),
        },
        Stage::Observing(e, false) => e == Some(event.external_spec()),
        _ => false,
    }
}

/// The turn of the player never asks a character to act: a step that
/// consumes an input goes on within the player's turn or to the query of
/// the line of sight.
pub proof fn lemma_player_turn_begins(state: StateView, world: &World, input: Option<Input>)
    requires
        state.wants_input(),
    ensures
        !(state.ticked(world, input).1 is Act),
        in_player_turn(state.ticked(world, input).0) || state.ticked(world, input).0.stage
            is Observing,
{
}

/// Within the player's turn no call is answered by asking a character to
/// act, and the step stays within the player's turn until it queries the
/// line of sight or faults.
pub proof fn lemma_player_turn_goes_on(state: StateView, call: Call)
    requires
        in_player_turn(state),
    ensures
        !(called(state, call).1 matches Some(Request::Act(_))),
        in_player_turn(called(state, call).0) || called(state, call).0.stage is Observing || (
        called(state, call).0.stage is Ready && called(state, call).1 matches Some(
            Request::Fault(_),
        )),
{
    reveal_with_fuel(StateView::settled, 3);
    reveal_with_fuel(StateView::committed, 3);
}

/// A terminal event that applying a change raises, while no terminal event
/// is kept yet, becomes the event the step carries to its end. The changes
/// of the ledger are the exception: what they raise is not reported.
pub proof fn lemma_terminal_is_carried(
    state: StateView,
    world: &World,
    event: crate::event::Event,
)
    requires
        event.is_terminal_spec(),
        state.stage matches Stage::Applying(ctx) && !(ctx.after is Ledger)
            && !crate::event::is_terminal(ctx.acc),
    ensures
        ({
            let (next, r) = state.resumed(world, Reply::Applied(Some(event)));
            &&& !(r is Act)
            &&& carries(next, event) || (next.stage is Ready && r is Fault)
        }),
{
    reveal_with_fuel(StateView::settled, 3);
    reveal_with_fuel(StateView::committed, 3);
}

/// A step that carries a terminal event keeps carrying it whatever is
/// called, and asks no character to act and no animation to be stepped.
/// If it ends, it ends with that event, or it faults.
pub proof fn lemma_carried_on(state: StateView, call: Call, event: crate::event::Event)
    requires
        event.is_terminal_spec(),
        carries(state, event),
    ensures
        ({
            let (next, answer) = called(state, call);
            &&& !(answer matches Some(Request::Act(_)))
            &&& !(answer matches Some(Request::Step(_)))
            &&& !(answer matches Some(Request::Precheck))
            &&& answer matches Some(Request::Done(e)) ==> e == Some(event.external_spec())
            &&& carries(next, event) || (next.stage is Ready && (answer == Some(
                Request::Done(Some(event.external_spec())),
            ) || answer matches Some(Request::Fault(_))))
        }),
{
    reveal_with_fuel(StateView::settled, 3);
    reveal_with_fuel(StateView::committed, 3);
}

/// Once a step carries a terminal event, every call within the step is
/// answered without a character being asked to act, and the step can only
/// end with that event, or fault.
pub proof fn lemma_terminal_ends_step(
    state: StateView,
    calls: Seq<Call>,
    event: crate::event::Event,
)
    requires
        event.is_terminal_spec(),
        carries(state, event),
        unfinished(state, calls),
    ensures
        carries(replayed(state, calls), event) || replayed(state, calls).stage is Ready,
        forall|i: int|
            0 <= i < calls.len() ==> {
                &&& !(#[trigger] answers(state, calls)[i] matches Some(Request::Act(_)))
                &&& answers(state, calls)[i] matches Some(Request::Done(e)) ==> e == Some(
                    event.external_spec(),
                )
            },
        answers(state, calls).len() == calls.len(),
    decreases calls.len(),
{
    if calls.len() > 0 {
        let front = calls.drop_last();
        lemma_terminal_ends_step(state, front, event);
        lemma_carried_on(replayed(state, front), calls.last(), event);
        assert forall|i: int| 0 <= i < calls.len() implies {
            &&& !(#[trigger] answers(state, calls)[i] matches Some(Request::Act(_)))
            &&& answers(state, calls)[i] matches Some(Request::Done(e)) ==> e == Some(
                event.external_spec(),
            )
        } by {
            if i < front.len() {
                assert(answers(state, calls)[i] == answers(state, front)[i]);
            }
        }
    }
}

/// The characters act one after the other, in their order: while a pass is
/// under way at position `index`, the next character that is asked to act
/// is the one at the next position, and the order stays as it is.
pub proof fn lemma_acts_in_order(state: StateView, call: Call)
    requires
        reads_order(state.stage),
        state.wf(),
        state.npc_order.len() <= usize::MAX,
    ensures
        ({
            let index = match state.stage {
                Stage::Acting(c) => c.index,
                Stage::Applying(ctx) => ctx.after->Npc_0.index,
                _ => 0,
            };
            let (next, answer) = called(state, call);
            &&& next.npc_order == state.npc_order
            &&& answer matches Some(Request::Act(id)) ==> {
                &&& index + 1 < state.npc_order.len()
                &&& id == state.npc_order[index + 1]
                &&& next.stage matches Stage::Acting(c)
                &&& c.index == index + 1
            }
            &&& reads_order(next.stage) ==> index <= match next.stage {
                Stage::Acting(c) => c.index,
                Stage::Applying(ctx) => ctx.after->Npc_0.index,
                _ => 0,
            } <= index + 1
        }),
{
    reveal_with_fuel(StateView::settled, 3);
    reveal_with_fuel(StateView::committed, 3);
}

} // verus!
