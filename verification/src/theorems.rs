//! What holds of the engine whatever the world answers.

use vstd::prelude::*;
use crate::event::Event;
use crate::model::StateView;
use crate::protocol::{After, ApplyCtx, Request, Stage};
use crate::queue::{Animation, AnimationChannel, AnimationStatus};
use crate::world::World;

verus! {

/// Committing while nothing is pending is a no-op: no change is handed out,
/// the queues stay as they are, and what follows the commit follows at
/// once, with no event kept.
pub proof fn lemma_commit_nothing(state: StateView, world: &World, after: After)
    requires
        state.swap.changes.len() == 0,
        state.messages.changes.len() == 0,
    ensures
        state.settled(world, ApplyCtx::fresh(after)) == state.committed(world, after, None),
        !(after is Player) ==> !(state.settled(world, ApplyCtx::fresh(after)).1 is Apply),
        after is Animation ==> state.settled(world, ApplyCtx::fresh(after)) == (
            StateView { stage: Stage::Observing(None, false), ..state },
            Request::Observe(world.player_coord),
        ),
{
    assert(state.swap.changes =~= Seq::empty());
    reveal_with_fuel(StateView::settled, 3);
    reveal_with_fuel(StateView::committed, 3);
    let turned = match after {
        After::Player => StateView {
            ledger: crate::ledger::ledger_ticked(state.ledger),
            messages: crate::action::queued(
                state.messages,
                crate::ledger::ledger_changes(
                    state.ledger,
                    world.player_id,
                    world.player_components@,
                ),
            ),
            ..state
        },
        _ => state,
    };
    assert(turned.swap.changes =~= Seq::empty());
}

/// A commit is over only when nothing is pending: whenever it goes on to
/// what follows it, be it the line of sight or the next character, the list
/// of pending changes and the batch buffer are empty.
pub proof fn lemma_commit_drains(state: StateView, world: &World, ctx: ApplyCtx)
    ensures
        ({
            let (next, r) = state.settled(world, ctx);
            r is Observe || r is Act ==> next.messages.changes.len() == 0
                && next.swap.changes.len() == 0
        }),
{
    reveal_with_fuel(StateView::settled, 3);
    reveal_with_fuel(StateView::committed, 3);
}

/// A commit never asks for an animation to be stepped, and it leaves the
/// visited channels, the phase and the pending animations as they are.
pub proof fn lemma_commit_keeps_channels(state: StateView, world: &World, ctx: ApplyCtx)
    ensures
        !(state.settled(world, ctx).1 is Step),
        state.settled(world, ctx).0.seen == state.seen,
        state.settled(world, ctx).0.turn == state.turn,
        state.settled(world, ctx).0.messages.animations == state.messages.animations,
{
    reveal_with_fuel(StateView::settled, 3);
    reveal_with_fuel(StateView::committed, 3);
}

/// Going through a batch of animations, the engine hands out the first
/// animation that does not declare a visited channel. Every animation
/// before it is queued again, unchanged and in order; the visited channels
/// stay as they are. If the engine hands out none, every animation left in
/// the batch declares a visited channel, and all of them are queued again,
/// unchanged and in order.
pub proof fn lemma_stepping(state: StateView, world: &World, from: int)
    requires
        0 <= from <= state.swap.animations.len() <= usize::MAX,
    ensures
        ({
            let batch = state.swap.animations;
            let (next, r) = state.stepping(world, from);
            &&& next.seen == state.seen
            &&& next.turn == state.turn
            &&& match r {
                Request::Step(animation) => {
                    &&& next.stage matches Stage::Stepping(at)
                    &&& from <= at < batch.len()
                    &&& animation == batch[at as int]
                    &&& !state.defers(animation)
                    &&& forall|k: int| from <= k < at ==> state.defers(#[trigger] batch[k])
                    &&& next.messages.animations == state.messages.animations + batch.subrange(
                        from,
                        at as int,
                    )
                },
                _ => {
                    &&& forall|k: int|
                        from <= k < batch.len() ==> state.defers(#[trigger] batch[k])
                    &&& next.messages.animations == state.messages.animations
                        + batch.subrange(from, batch.len() as int)
                },
            }
        }),
    decreases state.swap.animations.len() - from,
{
    let batch = state.swap.animations;
    if from >= batch.len() {
        let over = StateView {
            swap: crate::queue::SwapView { animations: Seq::empty(), ..state.swap },
            ..state
        };
        lemma_commit_keeps_channels(over, world, ApplyCtx::fresh(After::Animation));
        assert(state.messages.animations + batch.subrange(from, batch.len() as int)
            =~= state.messages.animations);
    } else {
        let animation = batch[from];
        if state.defers(animation) {
            let deferred = StateView {
                messages: crate::queue::QueuesView {
                    animations: state.messages.animations.push(animation),
                    ..state.messages
                },
                ..state
            };
            lemma_stepping(deferred, world, from + 1);
            let (next, r) = deferred.stepping(world, from + 1);
            if let Request::Step(_) = r {
                let at = next.stage->Stepping_0;
                assert(state.messages.animations.push(animation) + batch.subrange(
                    from + 1,
                    at as int,
                ) =~= state.messages.animations + batch.subrange(from, at as int));
                assert forall|k: int| from <= k < at implies state.defers(#[trigger] batch[k]) by {
                    if k > from {
                        assert(deferred.defers(batch[k]));
                    }
                }
            } else {
                assert(state.messages.animations.push(animation) + batch.subrange(
                    from + 1,
                    batch.len() as int,
                ) =~= state.messages.animations + batch.subrange(from, batch.len() as int));
                assert forall|k: int| from <= k < batch.len() implies state.defers(
                    #[trigger] batch[k],
                ) by {
                    if k > from {
                        assert(deferred.defers(batch[k]));
                    }
                }
            }
        } else {
            assert(state.messages.animations + batch.subrange(from, from)
                =~= state.messages.animations);
        }
    }
}

/// The report of a stepped animation marks the channel it names, and no
/// other, as visited.
pub proof fn lemma_stepped_marks(state: StateView, world: &World, at: int, status: AnimationStatus)
    requires
        0 <= at < state.swap.animations.len() <= usize::MAX,
    ensures
        state.stepped(world, at, status).0.seen == match status {
            AnimationStatus::ContinuingOnChannel(c) => state.seen.insert(c),
            _ => state.seen,
        },
{
    let animation = state.swap.animations[at];
    let again = crate::queue::QueuesView {
        animations: state.messages.animations.push(animation),
        ..state.messages
    };
    let noted = match status {
        AnimationStatus::Finished => state,
        AnimationStatus::Continuing => StateView { messages: again, ..state },
        AnimationStatus::ContinuingOnChannel(c) => StateView {
            messages: again,
            seen: state.seen.insert(c),
            ..state
        },
    };
    lemma_stepping(noted, world, at + 1);
}

/// An input is consumed only by a step that wants one: any other step
/// goes the same way whatever the input is.
pub proof fn lemma_input_ignored(
    state: StateView,
    world: &World,
    a: Option<crate::event::Input>,
    b: Option<crate::event::Input>,
)
    requires
        !state.wants_input(),
    ensures
        state.ticked(world, a) == state.ticked(world, b),
{
}

/// The phase changes in three places only. An accepted action of the
/// player hands over to the characters. The round of all characters, once
/// it is mustered, hands over to the fast characters if there is any, and
/// else back to the player. The pass of the fast characters always hands
/// back to the player. While animations are pending the phase is frozen.
pub proof fn lemma_tick_phase(state: StateView, world: &World, input: Option<crate::event::Input>)
    requires
        state.wf(),
        state.messages.animations.len() <= usize::MAX,
    ensures
        ({
            let next = state.ticked(world, input).0;
            &&& state.messages.animations.len() > 0 ==> next.turn == state.turn
            &&& state.turn is Player ==> next.turn == state.turn
            &&& state.turn is FastNpcs && state.stage is Ready && state.messages.animations.len()
                == 0 ==> next.turn is Player
            &&& state.turn is Npcs ==> next.turn == state.turn || next.turn == (if crate::npc::any_fast(
                world.npcs@,
            ) {
                crate::protocol::TurnState::FastNpcs
            } else {
                crate::protocol::TurnState::Player
            })
        }),
{
    reveal_with_fuel(StateView::settled, 3);
    reveal_with_fuel(StateView::committed, 3);
    if state.stage is Ready && state.messages.animations.len() > 0 {
        let drained = StateView {
            seen: Set::empty(),
            swap: crate::queue::SwapView { animations: state.messages.animations, ..state.swap },
            messages: crate::queue::QueuesView { animations: Seq::empty(), ..state.messages },
            ..state
        };
        lemma_stepping(drained, world, 0);
    }
}

/// A reply changes the phase in three cases only: the rules accept the
/// player's action, and the characters are next; the distance field was
/// rooted for the round of all characters, which is mustered and hands over
/// to the fast characters or to the player; a level was entered, and the
/// player is next.
pub proof fn lemma_resume_phase(state: StateView, world: &World, reply: crate::protocol::Reply)
    requires
        state.wf(),
        state.swap.animations.len() <= usize::MAX,
        !state.draws(reply),
    ensures
        ({
            let next = state.resumed(world, reply).0;
            next.turn != state.turn ==> {
                ||| state.stage is Prechecking && reply == crate::protocol::Reply::Prechecked(
                    crate::protocol::Verdict::Accept,
                ) && next.turn is Npcs
                ||| state.stage is Refreshing && reply is DistancesRefreshed && next.turn == (
                if crate::npc::any_fast(world.npcs@) {
                    crate::protocol::TurnState::FastNpcs
                } else {
                    crate::protocol::TurnState::Player
                })
                ||| state.stage is Populating && reply is Populated && next.turn is Player
            }
        }),
{
    reveal_with_fuel(StateView::settled, 3);
    reveal_with_fuel(StateView::committed, 3);
    match (state.stage, reply) {
        (Stage::Stepping(at), crate::protocol::Reply::Stepped(status)) => {
            let animation = state.swap.animations[at as int];
            let again = crate::queue::QueuesView {
                animations: state.messages.animations.push(animation),
                ..state.messages
            };
            let noted = match status {
                AnimationStatus::Finished => state,
                AnimationStatus::Continuing => StateView { messages: again, ..state },
                AnimationStatus::ContinuingOnChannel(c) => StateView {
                    messages: again,
                    seen: state.seen.insert(c),
                    ..state
                },
            };
            lemma_stepping(noted, world, at + 1);
        },
        _ => {},
    }
}

/// Whether an animation is deferred, given the channels visited so far.
pub open spec fn deferred(seen: Set<AnimationChannel>, animation: Animation) -> bool {
    animation.channel matches Some(c) && seen.contains(c)
}

/// The channels visited once the first `upto` animations of a batch were
/// gone through, when stepping the animation at position `i` reports
/// `reports(i)`. No channel is visited when the pass begins.
pub open spec fn pass_seen(
    batch: Seq<Animation>,
    reports: spec_fn(int) -> AnimationStatus,
    upto: int,
) -> Set<AnimationChannel>
    decreases upto,
{
    if upto <= 0 {
        Set::empty()
    } else {
        let before = pass_seen(batch, reports, upto - 1);
        if deferred(before, batch[upto - 1]) {
            before
        } else {
            match reports(upto - 1) {
                AnimationStatus::ContinuingOnChannel(c) => before.insert(c),
                _ => before,
            }
        }
    }
}

/// Whether the animation at position `i` of a batch is stepped in the pass.
pub open spec fn is_stepped(
    batch: Seq<Animation>,
    reports: spec_fn(int) -> AnimationStatus,
    i: int,
) -> bool {
    !deferred(pass_seen(batch, reports, i), batch[i])
}

/// A channel that was visited stays visited for the rest of the pass.
pub proof fn lemma_pass_seen_grows(
    batch: Seq<Animation>,
    reports: spec_fn(int) -> AnimationStatus,
    i: int,
    j: int,
    c: AnimationChannel,
)
    requires
        0 <= i <= j,
        pass_seen(batch, reports, i).contains(c),
    ensures
        pass_seen(batch, reports, j).contains(c),
    decreases j - i,
{
    if i < j {
        lemma_pass_seen_grows(batch, reports, i, j - 1, c);
    }
}

/// Channel exclusivity: once a stepped animation reports that it goes on
/// on a channel, every later animation of the batch that declares this
/// channel is deferred. So among the animations that declare a channel and
/// report it when stepped, at most one is stepped in a pass.
pub proof fn lemma_channel_exclusive(
    batch: Seq<Animation>,
    reports: spec_fn(int) -> AnimationStatus,
    i: int,
    j: int,
    c: AnimationChannel,
)
    requires
        0 <= i < j < batch.len(),
        is_stepped(batch, reports, i),
        reports(i) == AnimationStatus::ContinuingOnChannel(c),
        batch[j].channel == Some(c),
    ensures
        !is_stepped(batch, reports, j),
{
    let before = pass_seen(batch, reports, i);
    assert(pass_seen(batch, reports, i + 1) == before.insert(c));
    lemma_pass_seen_grows(batch, reports, i + 1, j, c);
}

/// Whether a state is at position `upto` of a pass over `batch` in which
/// stepping the animation at position `i` reports `reports(i)`: it holds
/// the batch and has visited the channels the pass has visited by then.
pub open spec fn tracks(
    state: StateView,
    batch: Seq<Animation>,
    reports: spec_fn(int) -> AnimationStatus,
    upto: int,
) -> bool {
    state.swap.animations == batch && state.seen == pass_seen(batch, reports, upto)
}

/// Whether a request is what a pass asks for next from position `from`: to
/// step the first animation from there on that the pass steps, or, if the
/// pass steps none of them, anything but a step.
pub open spec fn steps_next(
    batch: Seq<Animation>,
    reports: spec_fn(int) -> AnimationStatus,
    from: int,
    next: StateView,
    r: Request,
) -> bool {
    match r {
        Request::Step(animation) => exists|at: int|
            {
                &&& from <= at < batch.len()
                &&& #[trigger] is_stepped(batch, reports, at)
                &&& forall|k: int| from <= k < at ==> !#[trigger] is_stepped(batch, reports, k)
                &&& animation == batch[at]
                &&& next.stage == Stage::Stepping(at as usize)
                &&& tracks(next, batch, reports, at)
            },
        _ => forall|k: int| from <= k < batch.len() ==> !#[trigger] is_stepped(batch, reports, k),
    }
}

/// Across animations that are deferred, the visited channels stay the same.
proof fn lemma_pass_seen_constant(
    batch: Seq<Animation>,
    reports: spec_fn(int) -> AnimationStatus,
    from: int,
    to: int,
)
    requires
        0 <= from <= to,
        forall|k: int|
            from <= k < to ==> deferred(pass_seen(batch, reports, from), #[trigger] batch[k]),
    ensures
        forall|k: int| from <= k <= to ==> pass_seen(batch, reports, k) == pass_seen(batch, reports, from),
    decreases to - from,
{
    if from < to {
        lemma_pass_seen_constant(batch, reports, from, to - 1);
        assert(deferred(pass_seen(batch, reports, from), batch[to - 1]));
        assert(pass_seen(batch, reports, to - 1) == pass_seen(batch, reports, from));
    }
}

/// The engine steps exactly the animations the pass steps, in order: from
/// a state that is at position `from` of the pass, going through the batch
/// asks for the next animation the pass steps, and arrives at its position.
/// Changes and animations that are queued in between do not matter.
pub proof fn lemma_pass_steps(
    state: StateView,
    world: &World,
    reports: spec_fn(int) -> AnimationStatus,
    from: int,
)
    requires
        0 <= from <= state.swap.animations.len() <= usize::MAX,
        tracks(state, state.swap.animations, reports, from),
    ensures
        steps_next(
            state.swap.animations,
            reports,
            from,
            state.stepping(world, from).0,
            state.stepping(world, from).1,
        ),
{
    let batch = state.swap.animations;
    let (next, r) = state.stepping(world, from);
    lemma_stepping(state, world, from);
    match r {
        Request::Step(animation) => {
            let at = next.stage->Stepping_0 as int;
            lemma_swap_kept(state, world, from);
            lemma_pass_seen_constant(batch, reports, from, at);
            assert(is_stepped(batch, reports, at));
            assert forall|k: int| from <= k < at implies !#[trigger] is_stepped(
                batch,
                reports,
                k,
            ) by {
                assert(state.defers(batch[k]));
            }
        },
        _ => {
            lemma_pass_seen_constant(batch, reports, from, batch.len() as int);
            assert forall|k: int| from <= k < batch.len() implies !#[trigger] is_stepped(
                batch,
                reports,
                k,
            ) by {
                assert(state.defers(batch[k]));
            }
        },
    }
}

/// Handing out an animation to be stepped leaves the batch as it is.
proof fn lemma_swap_kept(state: StateView, world: &World, from: int)
    requires
        0 <= from <= state.swap.animations.len(),
    ensures
        state.stepping(world, from).1 is Step ==> state.stepping(world, from).0.swap.animations
            == state.swap.animations,
    decreases state.swap.animations.len() - from,
{
    let batch = state.swap.animations;
    if from >= batch.len() {
        let over = StateView {
            swap: crate::queue::SwapView { animations: Seq::empty(), ..state.swap },
            ..state
        };
        lemma_commit_keeps_channels(over, world, ApplyCtx::fresh(After::Animation));
    } else if state.defers(batch[from]) {
        let deferred = StateView {
            messages: crate::queue::QueuesView {
                animations: state.messages.animations.push(batch[from]),
                ..state.messages
            },
            ..state
        };
        lemma_swap_kept(deferred, world, from + 1);
    }
}

/// A step devoted to the animations begins the pass over the pending
/// animations at its first position.
pub proof fn lemma_pass_begins(
    state: StateView,
    world: &World,
    reports: spec_fn(int) -> AnimationStatus,
)
    requires
        state.messages.animations.len() <= usize::MAX,
    ensures
        steps_next(
            state.messages.animations,
            reports,
            0,
            state.animating(world).0,
            state.animating(world).1,
        ),
{
    let drained = StateView {
        seen: Set::empty(),
        swap: crate::queue::SwapView { animations: state.messages.animations, ..state.swap },
        messages: crate::queue::QueuesView { animations: Seq::empty(), ..state.messages },
        ..state
    };
    lemma_pass_steps(drained, world, reports, 0);
}

/// After the report of the animation at position `at`, the engine asks for
/// the next animation the pass steps behind it.
pub proof fn lemma_pass_steps_on(
    state: StateView,
    world: &World,
    reports: spec_fn(int) -> AnimationStatus,
    at: int,
)
    requires
        0 <= at < state.swap.animations.len() <= usize::MAX,
        tracks(state, state.swap.animations, reports, at),
        is_stepped(state.swap.animations, reports, at),
    ensures
        steps_next(
            state.swap.animations,
            reports,
            at + 1,
            state.stepped(world, at, reports(at)).0,
            state.stepped(world, at, reports(at)).1,
        ),
{
    let animation = state.swap.animations[at];
    let again = crate::queue::QueuesView {
        animations: state.messages.animations.push(animation),
        ..state.messages
    };
    let noted = match reports(at) {
        AnimationStatus::Finished => state,
        AnimationStatus::Continuing => StateView { messages: again, ..state },
        AnimationStatus::ContinuingOnChannel(c) => StateView {
            messages: again,
            seen: state.seen.insert(c),
            ..state
        },
    };
    lemma_pass_steps(noted, world, reports, at + 1);
}

/// The first terminal event ends a pass over the characters at once, and
/// no later character is told to act.
pub proof fn lemma_terminal_ends_pass(
    state: StateView,
    world: &World,
    ctx: crate::protocol::NpcCtx,
    event: Event,
)
    requires
        event.is_terminal_spec(),
    ensures
        state.absorbed(world, ctx, Some(event)) == state.finishing(world, Some(event)),
        !(state.absorbed(world, ctx, Some(event)).1 is Act),
{
}

} // verus!
