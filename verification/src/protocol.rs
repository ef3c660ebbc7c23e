//! The vocabulary of the request/reply protocol between the engine and the
//! side that owns the world.

use vstd::prelude::*;
use crate::change::{Change, EntityId};
use crate::coord::Coord;
use crate::event::{Alert, Event, ExternalEvent};
use crate::levels::TerrainInfo;
use crate::meter::MeterType;
use crate::queue::{Animation, AnimationStatus};
use crate::visibility::Sighting;

verus! {

/// Which class of actor is permitted to act.
#[derive(Clone, Copy, Debug, PartialEq, Eq, Structural)]
pub enum TurnState {
    Player,
    Npcs,
    FastNpcs,
}

/// Why the engine cannot go on.
#[derive(Clone, Copy, Debug, PartialEq, Eq, Structural)]
pub enum Fault {
    /// The call or the reply does not fit what the engine is waiting for.
    OutOfTurn,
    /// Applying changes kept queueing new changes for too many passes.
    CascadeLimit,
    /// The player already holds every kind of meter.
    NoMeterToGrant,
    /// The campaign has no level after the current one.
    NoNextLevel,
}

/// What the engine asks the owner of the world to do next.
#[derive(Clone, Copy, Debug, PartialEq, Eq, Structural)]
pub enum Request {
    /// Build the world of this level; answer `Generated`.
    Generate(TerrainInfo),
    /// Commit the changes of the batch buffer to the world directly, in
    /// order; answer `Populated`.
    Populate,
    /// Validate the pending changes against the rules; answer
    /// `Prechecked`.
    Precheck,
    /// Apply this change to the component storage, queueing whatever it
    /// sets off; answer `Applied` with the event it raised, if any.
    Apply(Change),
    /// Root the distance field at this coordinate; answer
    /// `DistancesRefreshed`.
    RefreshDistances(Coord),
    /// Let this character queue its one action; answer `Acted`.
    Act(EntityId),
    /// Advance this animation by the elapsed time; answer `Stepped`.
    Step(Animation),
    /// Query the line of sight from this coordinate; answer `Sighted`.
    Observe(Coord),
    /// The step is complete, with this event for the outside.
    Done(Option<ExternalEvent>),
    /// The engine cannot go on.
    Fault(Fault),
}

/// What the rules say of a batch of pending changes.
#[derive(Clone, Copy, Debug, PartialEq, Eq, Structural)]
pub enum Verdict {
    Accept,
    Reject(Option<Alert>),
}

/// The answer to a [`Request`].
#[derive(Debug)]
pub enum Reply<'a> {
    Generated,
    Populated,
    Prechecked(Verdict),
    Applied(Option<Event>),
    DistancesRefreshed,
    Acted,
    Stepped(AnimationStatus),
    Sighted(&'a Vec<Sighting>),
}

/// Where a pass over the characters stands.
#[derive(Clone, Copy, Debug, PartialEq, Eq, Structural)]
pub struct NpcCtx {
    /// The position in the order of the character that acts next.
    pub index: usize,
    /// The alert to report when the pass is over, if any.
    pub pending: Option<Event>,
}

/// What follows once the pending changes have been committed.
#[derive(Clone, Copy, Debug, PartialEq, Eq, Structural)]
pub enum After {
    /// The player's action was committed: the ledger is next.
    Player,
    /// The changes of the ledger were committed: the step ends with the
    /// event of the player's action.
    Ledger(Option<Event>),
    /// The action of a character was committed.
    Npc(NpcCtx),
    /// What the animations produced was committed.
    Animation,
}

/// Where a commit stands.
#[derive(Clone, Copy, Debug, PartialEq, Eq, Structural)]
pub struct ApplyCtx {
    /// The position in the batch buffer of the change that is applied next.
    pub next: usize,
    /// How many batches were drained so far.
    pub passes: u32,
    /// The event kept so far.
    pub acc: Option<Event>,
    pub after: After,
}

/// What the engine is waiting for.
#[derive(Clone, Copy, Debug, PartialEq, Eq, Structural)]
pub enum Stage {
    /// Built, and no level entered yet.
    Boot,
    /// `Generate` was issued: for the first level, or for the next one with
    /// the upgrade the player chose.
    Generating { first: bool, upgrade: Option<MeterType> },
    /// `Populate` was issued.
    Populating { first: bool },
    /// `RefreshDistances` was issued at the end of entering a level.
    Rooting,
    /// Between two steps.
    Ready,
    /// `Precheck` was issued.
    Prechecking,
    /// `Apply` was issued.
    Applying(ApplyCtx),
    /// `RefreshDistances` was issued at the start of a round of the
    /// characters.
    Refreshing,
    /// `Act` was issued.
    Acting(NpcCtx),
    /// `Step` was issued for the animation at this position of the batch.
    Stepping(usize),
    /// `Observe` was issued; the step then ends with this event, or goes on
    /// to root the distance field.
    Observing(Option<ExternalEvent>, bool),
}

/// The most batches one commit may drain.
pub const CASCADE_LIMIT: u32 = 1024;

impl After {
    /// How many further commits can follow this one within a step.
    pub open spec fn rank(self) -> nat {
        match self {
            After::Player => 1,
            _ => 0,
        }
    }
}

impl ApplyCtx {
    /// The start of a commit.
    pub open spec fn fresh(after: After) -> ApplyCtx {
        ApplyCtx { next: 0, passes: 0, acc: None, after }
    }
}

} // verus!
