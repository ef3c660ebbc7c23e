//! The periodic status-event ledger: countdown entries that fire a meter
//! change once per cycle of resolved player turns.

use vstd::prelude::*;
use crate::change::{find_meter, meter_of, Change, Component, EntityId};
use crate::meter::{clamped, ActiveMeterType, Meter, MeterType, PassiveMeterType};
use crate::queue::{MessageQueues, QueuesView};

verus! {

/// A scheduled change of one of the player's meters.
#[derive(Clone, Copy, Debug, PartialEq, Eq, Structural)]
pub enum PlayerTurnEvent {
    ChangeActiveMeter(ActiveMeterType, i32),
    ChangePassiveMeter(PassiveMeterType, i32),
}

/// A ledger entry. `remaining` drops by one per resolved player turn; at
/// zero the event fires and `remaining` starts over from `reset`.
#[derive(Clone, Copy, Debug, PartialEq, Eq, Structural)]
pub struct PlayerTurnEventEntry {
    pub event: PlayerTurnEvent,
    pub remaining: u32,
    pub reset: u32,
}

impl PlayerTurnEvent {
    /// The meter the event is about.
    pub open spec fn meter_type(self) -> MeterType {
        match self {
            PlayerTurnEvent::ChangeActiveMeter(t, _) => t.typ_spec(),
            PlayerTurnEvent::ChangePassiveMeter(t, _) => t.typ_spec(),
        }
    }

    /// The change the event asks for.
    pub open spec fn delta(self) -> i32 {
        match self {
            PlayerTurnEvent::ChangeActiveMeter(_, change) => change,
            PlayerTurnEvent::ChangePassiveMeter(_, change) => change,
        }
    }

    /// Whether the player holds what the event needs in order to fire: the
    /// meter it is about.
    pub open spec fn supported_by(self, components: Seq<Component>) -> bool {
        meter_of(components, self.meter_type()) is Some
    }

    /// The change the event makes when it fires: the meter it is about,
    /// with the change applied and the value clamped to `[0, max]`.
    pub open spec fn fired(self, player: EntityId, components: Seq<Component>) -> Change {
        Change::Insert(
            player,
            Component::Meter(
                self.meter_type(),
                adjusted_spec(meter_of(components, self.meter_type()).unwrap(), self.delta()),
            ),
        )
    }
}

/// The meter with `change` applied and the value clamped to `[0, max]`.
pub open spec fn adjusted_spec(meter: Meter, change: i32) -> Meter {
    Meter { value: clamped(meter.value as int, change as int, meter.max as int) as i32, max: meter.max }
}

impl PlayerTurnEventEntry {
    /// Whether the entry fires in the next resolved player turn.
    pub open spec fn due(self) -> bool {
        self.remaining == 0
    }

    /// The entry after one resolved player turn.
    pub open spec fn ticked(self) -> PlayerTurnEventEntry {
        PlayerTurnEventEntry {
            remaining: if self.remaining == 0 {
                self.reset
            } else {
                (self.remaining - 1) as u32
            },
            ..self
        }
    }

    /// The entry after `turns` resolved player turns.
    pub open spec fn after(self, turns: nat) -> PlayerTurnEventEntry
        decreases turns,
    {
        if turns == 0 {
            self
        } else {
            self.after((turns - 1) as nat).ticked()
        }
    }

    /// How often the entry fires in the first `turns` resolved player turns.
    pub open spec fn fired_within(self, turns: nat) -> nat
        decreases turns,
    {
        if turns == 0 {
            0
        } else {
            let before = self.fired_within((turns - 1) as nat);
            if self.after((turns - 1) as nat).due() {
                before + 1
            } else {
                before
            }
        }
    }

    /// A fresh entry: the countdown starts at `reset`.
    pub fn full(event: PlayerTurnEvent, reset: u32) -> (e: PlayerTurnEventEntry)
        ensures
            e == (PlayerTurnEventEntry { event, remaining: reset, reset }),
    {
        PlayerTurnEventEntry { event, remaining: reset, reset }
    }
}

/// Whether the player holds what every entry of the ledger needs.
pub open spec fn ledger_supported(entries: Seq<PlayerTurnEventEntry>, components: Seq<Component>) -> bool {
    forall|i: int| 0 <= i < entries.len() ==> (#[trigger] entries[i]).event.supported_by(components)
}

/// The changes of the entries that are due, in ledger order.
pub open spec fn ledger_changes(
    entries: Seq<PlayerTurnEventEntry>,
    player: EntityId,
    components: Seq<Component>,
) -> Seq<Change>
    decreases entries.len(),
{
    if entries.len() == 0 {
        Seq::empty()
    } else {
        let front = ledger_changes(entries.drop_last(), player, components);
        if entries.last().due() {
            front.push(entries.last().event.fired(player, components))
        } else {
            front
        }
    }
}

/// Every entry after one resolved player turn.
pub open spec fn ledger_ticked(entries: Seq<PlayerTurnEventEntry>) -> Seq<PlayerTurnEventEntry> {
    entries.map_values(|e: PlayerTurnEventEntry| e.ticked())
}

/// The change one event makes when it fires.
fn fire(event: PlayerTurnEvent, player: EntityId, components: &Vec<Component>) -> (c: Change)
    requires
        event.supported_by(components@),
    ensures
        c == event.fired(player, components@),
{
    let (typ, change) = match event {
        PlayerTurnEvent::ChangeActiveMeter(t, change) => (t.typ(), change),
        PlayerTurnEvent::ChangePassiveMeter(t, change) => (t.typ(), change),
    };
    let meter = match find_meter(components, typ) {
        Some(m) => m,
        None => Meter { value: 0, max: 0 },
    };
    Change::Insert(player, Component::Meter(typ, meter.adjusted(change)))
}

/// Advances the ledger by one resolved player turn.
///
/// Every entry that is due queues its change, computed from the player's
/// components as they are now, and starts over; every other entry counts
/// down by one.
pub fn process_turn_events(
    entries: &mut Vec<PlayerTurnEventEntry>,
    player: EntityId,
    components: &Vec<Component>,
    messages: &mut MessageQueues,
)
    requires
        ledger_supported(old(entries)@, components@),
    ensures
        final(entries)@ == ledger_ticked(old(entries)@),
        final(messages)@ == (QueuesView {
            changes: old(messages)@.changes + ledger_changes(old(entries)@, player, components@),
            ..old(messages)@
        }),
{
    let mut i: usize = 0;
    assert(old(messages)@.changes + Seq::<Change>::empty() =~= old(messages)@.changes);
    while i < entries.len()
        invariant
            i <= entries@.len(),
            entries@.len() == old(entries)@.len(),
            ledger_supported(old(entries)@, components@),
            forall|j: int| 0 <= j < i ==> entries@[j] == old(entries)@[j].ticked(),
            forall|j: int| i <= j < entries@.len() ==> entries@[j] == old(entries)@[j],
            messages@ == (QueuesView {
                changes: old(messages)@.changes + ledger_changes(
                    old(entries)@.take(i as int),
                    player,
                    components@,
                ),
                ..old(messages)@
            }),
        decreases entries@.len() - i,
    {
        let entry = entries[i];
        let ghost upto = old(entries)@.take(i + 1);
        proof {
            assert(upto.drop_last() =~= old(entries)@.take(i as int));
            assert(upto.last() == entry);
        }
        if entry.remaining == 0 {
            let change = fire(entry.event, player, components);
            messages.change(change);
            entries.set(
                i,
                PlayerTurnEventEntry { event: entry.event, remaining: entry.reset, reset: entry.reset },
            );
        } else {
            entries.set(
                i,
                PlayerTurnEventEntry {
                    event: entry.event,
                    remaining: entry.remaining - 1,
                    reset: entry.reset,
                },
            );
        }
        assert(messages@.changes =~= old(messages)@.changes + ledger_changes(
            upto,
            player,
            components@,
        ));
        i += 1;
    }
    assert(old(entries)@.take(old(entries)@.len() as int) =~= old(entries)@);
    assert(entries@ =~= ledger_ticked(old(entries)@));
}

/// The countdown of a fresh entry with `reset == r` runs through
/// `r, r - 1, ..., 1, 0` and then starts over: after `turns` resolved
/// player turns it stands at `r - turns % (r + 1)`, so the entry is due
/// exactly in every `(r + 1)`-th turn.
pub proof fn lemma_countdown_cycle(entry: PlayerTurnEventEntry, turns: nat)
    requires
        entry.remaining == entry.reset,
    ensures
        entry.after(turns).reset == entry.reset,
        entry.after(turns).event == entry.event,
        entry.after(turns).remaining == entry.reset - turns % (entry.reset + 1) as nat,
        entry.after(turns).due() <==> turns % (entry.reset + 1) as nat == entry.reset,
    decreases turns,
{
    let period = (entry.reset + 1) as int;
    if turns > 0 {
        let before = (turns - 1) as nat;
        lemma_countdown_cycle(entry, before);
        assert(turns as int % period == if before as int % period == period - 1 {
            0
        } else {
            before as int % period + 1
        }) by (nonlinear_arith)
            requires
                turns == before + 1,
                period > 0,
        ;
    } else {
        assert(0int % period == 0) by (nonlinear_arith)
            requires
                period > 0,
        ;
    }
    assert(0 <= turns as int % period < period) by (nonlinear_arith)
        requires
            period > 0,
    ;
}

/// A fresh entry with `reset == r` fires exactly once in every window of
/// `r + 1` consecutive resolved player turns: after `cycles` full cycles it
/// has fired `cycles` times.
pub proof fn lemma_fires_once_per_cycle(entry: PlayerTurnEventEntry, cycles: nat)
    requires
        entry.remaining == entry.reset,
    ensures
        entry.fired_within(cycles * (entry.reset + 1) as nat) == cycles,
    decreases cycles,
{
    let period = (entry.reset + 1) as nat;
    if cycles > 0 {
        lemma_fires_once_per_cycle(entry, (cycles - 1) as nat);
        let start = ((cycles - 1) * period) as nat;
        assert(cycles * period == start + period) by (nonlinear_arith)
            requires
                cycles > 0,
                start == (cycles - 1) * period,
        ;
        assert(start % period == 0) by (nonlinear_arith)
            requires
                start == (cycles - 1) * period,
                period > 0,
                cycles > 0,
        ;
        lemma_fired_in_cycle(entry, start, period);
    } else {
        assert(cycles * period == 0) by (nonlinear_arith)
            requires
                cycles == 0,
        ;
    }
}

/// Within a cycle that starts at a multiple of the period, the entry has
/// not fired before the last turn and has fired once after it.
proof fn lemma_fired_in_cycle(entry: PlayerTurnEventEntry, start: nat, into: nat)
    requires
        entry.remaining == entry.reset,
        start % (entry.reset + 1) as nat == 0,
        into <= entry.reset + 1,
    ensures
        entry.fired_within(start + into) == entry.fired_within(start) + if into == entry.reset + 1 {
            1nat
        } else {
            0nat
        },
    decreases into,
{
    let period = (entry.reset + 1) as int;
    if into > 0 {
        let before = (into - 1) as nat;
        lemma_fired_in_cycle(entry, start, before);
        lemma_countdown_cycle(entry, start + before);
        assert((start + before) as int % period == before as int) by (nonlinear_arith)
            requires
                start as int % period == 0,
                0 <= before < period,
                start >= 0,
        ;
        assert(start + into - 1 == start + before);
    }
}

} // verus!
