//! The change queue: pending world mutations and pending animations, each
//! in commit order, with a second pair of buffers that holds the batch that
//! is being worked through.

use vstd::prelude::*;
use crate::change::Change;
use crate::coord::Coord;
use crate::vecs::copy_vec;

verus! {

/// A mutual-exclusion lane for animations.
pub type AnimationChannel = u32;

/// A pending visual effect. `token` names the effect to the side that
/// steps it.
#[derive(Clone, Copy, Debug, PartialEq, Eq, Structural)]
pub struct Animation {
    pub channel: Option<AnimationChannel>,
    pub token: u64,
}

/// What stepping an animation reports.
#[derive(Clone, Copy, Debug, PartialEq, Eq, Structural)]
pub enum AnimationStatus {
    Finished,
    Continuing,
    ContinuingOnChannel(AnimationChannel),
}

#[derive(Debug)]
pub struct MessageQueues {
    pub changes: Vec<Change>,
    pub animations: Vec<Animation>,
    /// Where the player went since the distance field was last rooted.
    pub player_moved_to: Option<Coord>,
}

/// The buffers that hold the batch in progress. Both are empty between
/// batches.
#[derive(Debug)]
pub struct MessageQueuesSwap {
    pub changes: Vec<Change>,
    pub animations: Vec<Animation>,
}

/// The mathematical value of a [`MessageQueues`].
pub struct QueuesView {
    pub changes: Seq<Change>,
    pub animations: Seq<Animation>,
    pub player_moved_to: Option<Coord>,
}

/// The mathematical value of a [`MessageQueuesSwap`].
pub struct SwapView {
    pub changes: Seq<Change>,
    pub animations: Seq<Animation>,
}

impl View for MessageQueues {
    type V = QueuesView;

    open spec fn view(&self) -> QueuesView {
        QueuesView {
            changes: self.changes@,
            animations: self.animations@,
            player_moved_to: self.player_moved_to,
        }
    }
}

impl View for MessageQueuesSwap {
    type V = SwapView;

    open spec fn view(&self) -> SwapView {
        SwapView { changes: self.changes@, animations: self.animations@ }
    }
}

impl QueuesView {
    pub open spec fn empty() -> QueuesView {
        QueuesView { changes: Seq::empty(), animations: Seq::empty(), player_moved_to: None }
    }
}

impl SwapView {
    pub open spec fn empty() -> SwapView {
        SwapView { changes: Seq::empty(), animations: Seq::empty() }
    }
}

impl MessageQueues {
    pub fn new() -> (q: MessageQueues)
        ensures
            q@ == QueuesView::empty(),
    {
        MessageQueues { changes: Vec::new(), animations: Vec::new(), player_moved_to: None }
    }

    /// Appends a mutation to the list of pending changes.
    pub fn change(&mut self, change: Change)
        ensures
            final(self)@ == (QueuesView {
                changes: old(self)@.changes.push(change),
                ..old(self)@
            }),
    {
        self.changes.push(change);
    }

    /// Appends an animation to the list of pending animations.
    pub fn animate(&mut self, animation: Animation)
        ensures
            final(self)@ == (QueuesView {
                animations: old(self)@.animations.push(animation),
                ..old(self)@
            }),
    {
        self.animations.push(animation);
    }

    /// A copy of the queues.
    pub fn duplicate(&self) -> (q: MessageQueues)
        ensures
            q@ == self@,
    {
        MessageQueues {
            changes: copy_vec(&self.changes),
            animations: copy_vec(&self.animations),
            player_moved_to: self.player_moved_to,
        }
    }

    /// Moves the pending changes into the empty batch buffer, leaving the
    /// list of pending changes empty.
    pub fn drain_changes(&mut self, swap: &mut MessageQueuesSwap)
        requires
            old(swap)@.changes.len() == 0,
        ensures
            final(self)@ == (QueuesView { changes: Seq::empty(), ..old(self)@ }),
            final(swap)@ == (SwapView { changes: old(self)@.changes, ..old(swap)@ }),
    {
        std::mem::swap(&mut self.changes, &mut swap.changes);
        assert(self.changes@ =~= Seq::empty());
    }

    /// Moves the pending animations into the empty batch buffer, leaving
    /// the list of pending animations empty.
    pub fn drain_animations(&mut self, swap: &mut MessageQueuesSwap)
        requires
            old(swap)@.animations.len() == 0,
        ensures
            final(self)@ == (QueuesView { animations: Seq::empty(), ..old(self)@ }),
            final(swap)@ == (SwapView { animations: old(self)@.animations, ..old(swap)@ }),
    {
        std::mem::swap(&mut self.animations, &mut swap.animations);
        assert(self.animations@ =~= Seq::empty());
    }
}

impl MessageQueuesSwap {
    pub fn new() -> (q: MessageQueuesSwap)
        ensures
            q@ == SwapView::empty(),
    {
        MessageQueuesSwap { changes: Vec::new(), animations: Vec::new() }
    }
}

} // verus!
