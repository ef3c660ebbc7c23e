//! What the player may ask for, and what a tick may report back.

use vstd::prelude::*;
use crate::coord::CardinalDirection;
use crate::meter::ActiveMeterIdentifier;

verus! {

/// A recoverable, player-facing refusal. An action that raises an alert
/// commits nothing.
#[derive(Clone, Copy, Debug, PartialEq, Eq, Structural)]
pub enum Alert {
    NoAmmo,
    NoMedkit,
    NoBlink,
    WalkIntoWall,
    BlinkIntoNonEmpty,
    BlinkWhichDirection,
    RailgunWhichDirection,
    NoSuchMeter,
}

/// An event that is visible outside the engine. `Ascend` carries whether
/// the objective of the level that is left was complete.
#[derive(Clone, Copy, Debug, PartialEq, Eq, Structural)]
pub enum ExternalEvent {
    Alert(Alert),
    Lose,
    Win,
    Ascend(bool),
}

#[derive(Clone, Copy, Debug, PartialEq, Eq, Structural)]
pub enum Event {
    External(ExternalEvent),
}

#[derive(Clone, Copy, Debug, PartialEq, Eq, Structural)]
pub enum Input {
    Direction(CardinalDirection),
    ActiveMeterSelect(ActiveMeterIdentifier),
    MeterDeselect,
    Wait,
}

impl ExternalEvent {
    /// Win, lose and ascend end the step they occur in; alerts do not.
    pub open spec fn is_terminal_spec(self) -> bool {
        !(self is Alert)
    }

    pub fn is_terminal(self) -> (b: bool)
        ensures
            b == self.is_terminal_spec(),
    {
        match self {
            ExternalEvent::Alert(_) => false,
            _ => true,
        }
    }
}

impl Event {
    pub open spec fn is_terminal_spec(self) -> bool {
        match self {
            Event::External(e) => e.is_terminal_spec(),
        }
    }

    pub open spec fn external_spec(self) -> ExternalEvent {
        match self {
            Event::External(e) => e,
        }
    }

    pub fn is_terminal(self) -> (b: bool)
        ensures
            b == self.is_terminal_spec(),
    {
        match self {
            Event::External(e) => e.is_terminal(),
        }
    }

    pub fn external(self) -> (e: ExternalEvent)
        ensures
            e == self.external_spec(),
    {
        match self {
            Event::External(e) => e,
        }
    }

    /// The event an alert is reported as.
    pub fn alert(alert: Alert) -> (e: Event)
        ensures
            e == Event::External(ExternalEvent::Alert(alert)),
    {
        Event::External(ExternalEvent::Alert(alert))
    }
}

/// Whether an optional event is a terminal one.
pub open spec fn is_terminal(e: Option<Event>) -> bool {
    e matches Some(ev) && ev.is_terminal_spec()
}

/// The one event kept of two that occurred in this order within a single
/// commit: the first terminal event, else the first event of any kind.
pub open spec fn first_of(earlier: Option<Event>, later: Option<Event>) -> Option<Event> {
    if is_terminal(earlier) {
        earlier
    } else if is_terminal(later) {
        later
    } else if earlier is Some {
        earlier
    } else {
        later
    }
}

/// The event kept of a whole sequence of outcomes, in the order in which
/// they occurred.
pub open spec fn first_of_all(outcomes: Seq<Option<Event>>) -> Option<Event>
    decreases outcomes.len(),
{
    if outcomes.len() == 0 {
        None
    } else {
        first_of(first_of_all(outcomes.drop_last()), outcomes.last())
    }
}

/// Combines the event kept so far with the outcome of the next change.
pub fn merge(earlier: Option<Event>, later: Option<Event>) -> (r: Option<Event>)
    ensures
        r == first_of(earlier, later),
{
    match earlier {
        Some(e) => {
            if e.is_terminal() {
                earlier
            } else {
                match later {
                    Some(l) => {
                        if l.is_terminal() {
                            later
                        } else {
                            earlier
                        }
                    },
                    None => earlier,
                }
            }
        },
        None => later,
    }
}

/// The externally visible part of an optional event.
pub fn surface(e: Option<Event>) -> (r: Option<ExternalEvent>)
    ensures
        r == match e {
            Some(ev) => Some(ev.external_spec()),
            None => None,
        },
{
    match e {
        Some(ev) => Some(ev.external()),
        None => None,
    }
}

/// If any outcome of a commit is terminal, the event kept is the first
/// terminal one; otherwise it is the first alert; otherwise nothing.
pub proof fn lemma_first_of_all(outcomes: Seq<Option<Event>>)
    ensures
        (forall|i: int| 0 <= i < outcomes.len() ==> outcomes[i] is None) ==> first_of_all(
            outcomes,
        ) is None,
        forall|i: int|
            #![trigger outcomes[i]]
            0 <= i < outcomes.len() && is_terminal(outcomes[i]) && (forall|j: int|
                0 <= j < i ==> !is_terminal(outcomes[j])) ==> first_of_all(outcomes) == outcomes[i],
        forall|i: int|
            #![trigger outcomes[i]]
            0 <= i < outcomes.len() && outcomes[i] is Some && (forall|j: int|
                0 <= j < outcomes.len() ==> !is_terminal(outcomes[j])) && (forall|j: int|
                0 <= j < i ==> outcomes[j] is None) ==> first_of_all(outcomes) == outcomes[i],
    decreases outcomes.len(),
{
    if outcomes.len() > 0 {
        let front = outcomes.drop_last();
        lemma_first_of_all(front);
        assert(forall|j: int| 0 <= j < front.len() ==> front[j] == outcomes[j]);
        let last = outcomes.len() - 1;
        assert forall|i: int|
            #![trigger outcomes[i]]
            0 <= i < outcomes.len() && is_terminal(outcomes[i]) && (forall|j: int|
                0 <= j < i ==> !is_terminal(outcomes[j])) implies first_of_all(outcomes)
            == outcomes[i] by {
            if i < last {
                assert(front[i] == outcomes[i]);
                assert(first_of_all(front) == front[i]);
            } else {
                lemma_no_terminal(front);
            }
        }
        assert forall|i: int|
            #![trigger outcomes[i]]
            0 <= i < outcomes.len() && outcomes[i] is Some && (forall|j: int|
                0 <= j < outcomes.len() ==> !is_terminal(outcomes[j])) && (forall|j: int|
                0 <= j < i ==> outcomes[j] is None) implies first_of_all(outcomes)
            == outcomes[i] by {
            if i < last {
                assert(front[i] == outcomes[i]);
                assert(first_of_all(front) == front[i]);
                assert(!is_terminal(outcomes[last]));
            } else {
                assert(forall|j: int| 0 <= j < front.len() ==> front[j] is None);
            }
        }
    }
}

/// A sequence without a terminal outcome keeps no terminal event.
pub proof fn lemma_no_terminal(outcomes: Seq<Option<Event>>)
    requires
        forall|j: int| 0 <= j < outcomes.len() ==> !is_terminal(outcomes[j]),
    ensures
        !is_terminal(first_of_all(outcomes)),
    decreases outcomes.len(),
{
    if outcomes.len() > 0 {
        lemma_no_terminal(outcomes.drop_last());
    }
}

} // verus!
