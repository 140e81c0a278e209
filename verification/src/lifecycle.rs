//! An account of one lineage, that is of one queue, its worker and every clone of its
//! handle, as a sequence of events.
//!
//! The executable types decide by what the queue's endpoints report, one call at a time,
//! and the queue and the threads do the rest. This module says what that adds up to:
//! which value is destroyed when, in which order and by whom, under every interleaving of
//! producers, owners and worker. A [`Lineage`] is the state, an [`Event`] is one atomic
//! thing that happens to it, and [`after`] is the state that a sequence of events leaves
//! behind. Cloning the handle is `Share`, `dropout` is `Dropout` with the fate that
//! `fate_when` gives it, a turn of the worker is `Take` or, on the closed and empty
//! queue, its part of `Finish`, and the release of an owner is `Release`, followed for
//! the last owner by `Await` and `Finish`.
//!
//! What is proved here is proved of this account. That the queue hands values on in the
//! order in which it took them, and that a released thread handle waits for its thread,
//! is what the account takes from the queue and from the threads.
use vstd::prelude::*;
use crate::inner::{fate_when, Fate};

verus! {

/// Where a lineage stands between creation and the end of its teardown.
#[derive(Clone, Copy, Debug, PartialEq, Eq, Structural)]
pub enum Phase {
    /// Some owner holds the handle: the queue is open and takes values.
    Active,
    /// The last owner has let go of the sending endpoint.
    Closing,
    /// The last owner waits while the worker destroys what is left in the queue.
    Draining,
    /// The worker has ended and the last owner's release has returned.
    Terminated,
}

impl Phase {
    /// The position of a phase in the order in which a lineage passes through them.
    pub open spec fn rank(self) -> nat {
        match self {
            Phase::Active => 0,
            Phase::Closing => 1,
            Phase::Draining => 2,
            Phase::Terminated => 3,
        }
    }
}

/// A value on its way to destruction: which producer gave it away, and a tag that tells
/// it from that producer's other values.
pub struct Item {
    pub producer: nat,
    pub tag: nat,
}

/// One entry of the log of destructions.
pub struct Destruction {
    pub item: Item,
    /// `Deferred` where the worker's context destroyed the value, `Immediate` where the
    /// producer did.
    pub fate: Fate,
}

/// The state of one lineage.
pub struct Lineage {
    pub phase: Phase,
    /// How many owners hold the handle.
    pub owners: nat,
    /// How many worker contexts were ever started.
    pub workers: nat,
    /// The worker's context still holds the receiving endpoint.
    pub receiving: bool,
    /// The values in the queue, oldest first.
    pub backlog: Seq<Item>,
    /// The values destroyed so far, in the order of their destruction.
    pub destroyed: Seq<Destruction>,
}

/// One atomic thing that happens to a lineage.
pub enum Event {
    /// An owner clones the handle.
    Share,
    /// A producer gives a value away.
    Dropout(Item),
    /// The worker receives the oldest value and destroys it.
    Take,
    /// The worker's context ends out of turn, because a destruction faulted in it, say.
    /// It lets go of the receiving endpoint, and what the queue still holds is destroyed
    /// with the endpoint, oldest first.
    Fault,
    /// An owner releases the handle. The last one to do so lets go of the sending
    /// endpoint.
    Release,
    /// The last owner starts to wait for the worker.
    Await,
    /// The worker finds the queue closed and empty and ends, and the last owner's release
    /// returns.
    Finish,
}

/// The values of a log, without who destroyed them.
pub open spec fn items(log: Seq<Destruction>) -> Seq<Item> {
    log.map_values(|entry: Destruction| entry.item)
}

/// The log entries of values that the worker's context destroyed, in the given order.
pub open spec fn by_worker(values: Seq<Item>) -> Seq<Destruction> {
    values.map_values(|item: Item| Destruction { item, fate: Fate::Deferred })
}

/// The values among `values` that `producer` gave away, in the same order.
pub open spec fn sent_by(producer: nat, values: Seq<Item>) -> Seq<Item> {
    values.filter(|item: Item| item.producer == producer)
}

/// A lineage as `new` leaves it: one owner, one worker, nothing queued, nothing destroyed.
pub open spec fn fresh() -> Lineage {
    Lineage {
        phase: Phase::Active,
        owners: 1,
        workers: 1,
        receiving: true,
        backlog: Seq::empty(),
        destroyed: Seq::empty(),
    }
}

/// Whether `event` can happen in state `s`.
pub open spec fn enabled(s: Lineage, event: Event) -> bool {
    match event {
        Event::Share | Event::Dropout(_) | Event::Release => s.phase == Phase::Active,
        Event::Take => s.receiving && s.backlog.len() > 0,
        Event::Fault => s.receiving,
        Event::Await => s.phase == Phase::Closing,
        Event::Finish => s.phase == Phase::Draining && s.backlog.len() == 0,
    }
}

/// The state after `event` has happened in state `s`.
pub open spec fn step(s: Lineage, event: Event) -> Lineage {
    match event {
        Event::Share => Lineage { owners: s.owners + 1, ..s },
        Event::Dropout(item) => match fate_when(s.receiving) {
            Fate::Deferred => Lineage { backlog: s.backlog.push(item), ..s },
            Fate::Immediate => Lineage {
                destroyed: s.destroyed.push(Destruction { item, fate: Fate::Immediate }),
                ..s
            },
        },
        Event::Take => Lineage {
            backlog: s.backlog.drop_first(),
            destroyed: s.destroyed.push(Destruction { item: s.backlog[0], fate: Fate::Deferred }),
            ..s
        },
        Event::Fault => Lineage {
            receiving: false,
            backlog: Seq::empty(),
            destroyed: s.destroyed + by_worker(s.backlog),
            ..s
        },
        Event::Release => Lineage {
            owners: (s.owners - 1) as nat,
            phase: if s.owners == 1 {
                Phase::Closing
            } else {
                Phase::Active
            },
            ..s
        },
        Event::Await => Lineage { phase: Phase::Draining, ..s },
        Event::Finish => Lineage { phase: Phase::Terminated, receiving: false, ..s },
    }
}

/// Whether the events can happen in this order, starting from a fresh lineage.
pub open spec fn admissible(events: Seq<Event>) -> bool
    decreases events.len(),
{
    events.len() == 0 || (admissible(events.drop_last()) && enabled(
        after(events.drop_last()),
        events.last(),
    ))
}

/// The state that the events leave behind, starting from a fresh lineage.
pub open spec fn after(events: Seq<Event>) -> Lineage
    decreases events.len(),
{
    if events.len() == 0 {
        fresh()
    } else {
        step(after(events.drop_last()), events.last())
    }
}

/// The values given away in the course of the events, in the order of the calls.
pub open spec fn sent(events: Seq<Event>) -> Seq<Item>
    decreases events.len(),
{
    if events.len() == 0 {
        Seq::empty()
    } else {
        match events.last() {
            Event::Dropout(item) => sent(events.drop_last()).push(item),
            _ => sent(events.drop_last()),
        }
    }
}

/// What holds of a lineage whatever has happened to it, `given` being the values given
/// away so far.
pub open spec fn consistent(s: Lineage, given: Seq<Item>) -> bool {
    &&& s.workers == 1
    &&& (s.phase == Phase::Active) == (s.owners > 0)
    &&& !s.receiving ==> s.backlog.len() == 0
    &&& s.phase == Phase::Terminated ==> !s.receiving
    &&& items(s.destroyed) + s.backlog == given
}

proof fn lemma_step_keeps_consistent(s: Lineage, given: Seq<Item>, event: Event)
    requires
        consistent(s, given),
        enabled(s, event),
    ensures
        consistent(
            step(s, event),
            match event {
                Event::Dropout(item) => given.push(item),
                _ => given,
            },
        ),
{
    let t = step(s, event);
    match event {
        Event::Dropout(item) => {
            assert(items(t.destroyed) + t.backlog =~= given.push(item));
        },
        Event::Take => {
            assert(items(t.destroyed) + t.backlog =~= given);
        },
        Event::Fault => {
            assert(items(t.destroyed) + t.backlog =~= given);
        },
        _ => {},
    }
}

/// Every state that admissible events lead to is consistent with what was given away.
pub proof fn reachable_is_consistent(events: Seq<Event>)
    requires
        admissible(events),
    ensures
        consistent(after(events), sent(events)),
    decreases events.len(),
{
    if events.len() == 0 {
        assert(items(fresh().destroyed) + fresh().backlog =~= Seq::<Item>::empty());
    } else {
        reachable_is_consistent(events.drop_last());
        lemma_step_keeps_consistent(
            after(events.drop_last()),
            sent(events.drop_last()),
            events.last(),
        );
    }
}

/// Eventual destruction: once teardown has ended, the queue is empty and the log of
/// destructions holds the values that were given away, each as often as it was given
/// away, whichever producers gave them and however their calls interleaved.
pub proof fn eventual_destruction(events: Seq<Event>)
    requires
        admissible(events),
        after(events).phase == Phase::Terminated,
    ensures
        after(events).backlog.len() == 0,
        items(after(events).destroyed) == sent(events),
        items(after(events).destroyed).to_multiset() == sent(events).to_multiset(),
{
    reachable_is_consistent(events);
    let s = after(events);
    assert(items(s.destroyed) + s.backlog =~= items(s.destroyed));
}

/// Destruction follows the queue: at every moment the values destroyed so far are the
/// first of the values given away, in the order in which they were given away, and the
/// queue holds the rest.
pub proof fn destroyed_in_order_given(events: Seq<Event>)
    requires
        admissible(events),
    ensures
        items(after(events).destroyed).is_prefix_of(sent(events)),
        items(after(events).destroyed) + after(events).backlog == sent(events),
{
    reachable_is_consistent(events);
}

/// Per-producer order: at every moment the values of one producer that are destroyed are
/// the first of those it gave away, in its order; once teardown has ended they are all
/// of them.
pub proof fn per_producer_fifo(events: Seq<Event>, producer: nat)
    requires
        admissible(events),
    ensures
        sent_by(producer, items(after(events).destroyed)).is_prefix_of(
            sent_by(producer, sent(events)),
        ),
        after(events).phase == Phase::Terminated ==> sent_by(
            producer,
            items(after(events).destroyed),
        ) == sent_by(producer, sent(events)),
{
    reachable_is_consistent(events);
    let s = after(events);
    items(s.destroyed).lemma_filter_monotone(sent(events), |item: Item| item.producer == producer);
    if s.phase == Phase::Terminated {
        assert(items(s.destroyed) + s.backlog =~= items(s.destroyed));
    }
}

/// Cloning the handle changes nothing but the number of owners: no worker is started and
/// no value moves.
pub proof fn sharing_starts_no_worker(s: Lineage)
    ensures
        step(s, Event::Share) == (Lineage { owners: s.owners + 1, ..s }),
        step(s, Event::Share).workers == s.workers,
{
}

/// One lineage has one worker, whatever happens to it.
pub proof fn one_worker(events: Seq<Event>)
    requires
        admissible(events),
    ensures
        after(events).workers == 1,
{
    reachable_is_consistent(events);
}

/// Blocking teardown: at the moment the last owner's release returns, every value given
/// away before it has been destroyed and the queue is empty.
pub proof fn blocking_teardown(events: Seq<Event>)
    requires
        admissible(events),
        events.len() > 0,
        events.last() == Event::Finish,
    ensures
        after(events).phase == Phase::Terminated,
        after(events).backlog.len() == 0,
        items(after(events).destroyed) == sent(events),
{
    eventual_destruction(events);
}

/// Fallback: a value given away after the worker's context has let go of the receiving
/// endpoint is destroyed on the spot, by the producer, and never enters the queue.
pub proof fn fallback_destroys_at_once(events: Seq<Event>, item: Item)
    requires
        admissible(events),
        enabled(after(events), Event::Dropout(item)),
        !after(events).receiving,
    ensures
        step(after(events), Event::Dropout(item)).destroyed == after(events).destroyed.push(
            Destruction { item, fate: Fate::Immediate },
        ),
        step(after(events), Event::Dropout(item)).backlog.len() == 0,
{
    reachable_is_consistent(events);
}

/// A lineage only moves forward through its phases.
pub proof fn forward_only(s: Lineage, event: Event)
    requires
        enabled(s, event),
    ensures
        step(s, event).phase.rank() >= s.phase.rank(),
{
}

/// A worker that has let go of the receiving endpoint never takes it up again: no event
/// restarts it.
pub proof fn no_restart(s: Lineage, event: Event)
    requires
        !s.receiving,
    ensures
        !step(s, event).receiving,
        step(s, event).workers == s.workers,
{
}

/// How far a lineage is from the end of its teardown: the values still queued, the phases
/// still ahead, and the worker's context where it has not ended yet.
pub open spec fn remaining(s: Lineage) -> nat {
    let ahead = (Phase::Terminated.rank() - s.phase.rank()) as nat;
    if s.receiving {
        s.backlog.len() + ahead + 1
    } else {
        s.backlog.len() + ahead
    }
}

/// Teardown ends: once the last owner has released the handle, something can happen as
/// long as teardown has not ended, and whatever happens brings its end nearer. So the
/// release returns after at most `remaining` events, and nothing can hold it up for ever.
pub proof fn teardown_terminates(events: Seq<Event>, event: Event)
    requires
        admissible(events),
        after(events).phase != Phase::Active,
    ensures
        remaining(after(events)) == 0 <==> after(events).phase == Phase::Terminated,
        after(events).phase != Phase::Terminated ==> exists|next: Event|
            enabled(after(events), next),
        enabled(after(events), event) ==> remaining(step(after(events), event)) < remaining(
            after(events),
        ),
{
    reachable_is_consistent(events);
    let s = after(events);
    if s.phase == Phase::Closing {
        assert(enabled(s, Event::Await));
    } else if s.phase == Phase::Draining {
        if s.backlog.len() == 0 {
            assert(enabled(s, Event::Finish));
        } else {
            assert(enabled(s, Event::Take));
        }
    }
}

/// Nothing happens to a lineage whose teardown has ended.
pub proof fn terminated_is_final(events: Seq<Event>, event: Event)
    requires
        admissible(events),
        after(events).phase == Phase::Terminated,
    ensures
        !enabled(after(events), event),
{
    reachable_is_consistent(events);
}

} // verus!
