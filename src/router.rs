//! The routing state machine: which virtual device each event goes to.
use vstd::multiset::Multiset;
use vstd::prelude::*;

use crate::event::{is_trigger_spec, Event};
use crate::flush::{finish_batch, flushed, flushed_as};

verus! {

/// Routing state of one source device. `switched` selects the destination;
/// `pending_disable` records a trigger release, applied at the start of the
/// next report.
#[derive(Clone, Copy, Debug, PartialEq, Eq, Structural)]
pub struct RouterState {
    pub switched: bool,
    pub pending_disable: bool,
}

/// The events of one report, split by destination, each in report order.
#[derive(Clone, Debug)]
pub struct Routed {
    pub default_batch: Vec<Event>,
    pub switched_batch: Vec<Event>,
}

/// What one report makes the two virtual devices receive; `None` means
/// that destination gets no write for this report.
#[derive(Clone, Debug)]
pub struct Output {
    pub default_write: Option<Vec<Event>>,
    pub switched_write: Option<Vec<Event>>,
}

/// The state in effect for the first event of a report.
pub open spec fn start_report(s: RouterState) -> RouterState {
    if s.pending_disable {
        RouterState { switched: false, pending_disable: false }
    } else {
        s
    }
}

/// The state after classifying `e`: a trigger press switches at once, a
/// trigger release only asks for the switch to be undone later.
pub open spec fn after_event(s: RouterState, e: Event, trigger: u16) -> RouterState {
    if is_trigger_spec(e, trigger) {
        if e.value != 0 {
            RouterState { switched: true, pending_disable: s.pending_disable }
        } else {
            RouterState { switched: s.switched, pending_disable: true }
        }
    } else {
        s
    }
}

/// The state after classifying each of `evs` in turn, from `s`.
pub open spec fn state_after(s: RouterState, evs: Seq<Event>, trigger: u16) -> RouterState
    decreases evs.len(),
{
    if evs.len() == 0 {
        s
    } else {
        after_event(state_after(s, evs.drop_last(), trigger), evs.last(), trigger)
    }
}

/// The events of `evs` that go to the destination `to_switched`, in order:
/// each goes where the state right after classifying it points.
pub open spec fn routed_to(s: RouterState, evs: Seq<Event>, trigger: u16, to_switched: bool) -> Seq<Event>
    decreases evs.len(),
{
    if evs.len() == 0 {
        Seq::empty()
    } else {
        let prev = routed_to(s, evs.drop_last(), trigger, to_switched);
        if state_after(s, evs, trigger).switched == to_switched {
            prev.push(evs.last())
        } else {
            prev
        }
    }
}

impl RouterState {
    /// The state of a router that has not seen any event.
    pub fn new() -> (r: RouterState)
        ensures
            !r.switched,
            !r.pending_disable,
    {
        RouterState { switched: false, pending_disable: false }
    }

    /// Applies a release of the trigger seen in the previous report.
    pub fn begin_report(&mut self)
        ensures
            *final(self) == start_report(*old(self)),
    {
        if self.pending_disable {
            self.switched = false;
            self.pending_disable = false;
        }
    }

    /// Classifies one event; returns whether it goes to the switched device.
    pub fn classify(&mut self, e: &Event, trigger: u16) -> (to_switched: bool)
        ensures
            *final(self) == after_event(*old(self), *e, trigger),
            to_switched == final(self).switched,
    {
        if e.is_trigger(trigger) {
            if e.value != 0 {
                self.switched = true;
            } else {
                self.pending_disable = true;
            }
        }
        self.switched
    }

    /// Routes one report: starts it, then classifies each event in order
    /// and appends it to the batch of its destination.
    pub fn route_report(&mut self, report: &Vec<Event>, trigger: u16) -> (r: Routed)
        ensures
            *final(self) == state_after(start_report(*old(self)), report@, trigger),
            r.default_batch@ == routed_to(start_report(*old(self)), report@, trigger, false),
            r.switched_batch@ == routed_to(start_report(*old(self)), report@, trigger, true),
    {
        self.begin_report();
        let ghost s0 = *self;
        let mut default_batch: Vec<Event> = Vec::new();
        let mut switched_batch: Vec<Event> = Vec::new();
        let mut i: usize = 0;
        while i < report.len()
            invariant
                i <= report@.len(),
                s0 == start_report(*old(self)),
                *self == state_after(s0, report@.take(i as int), trigger),
                default_batch@ == routed_to(s0, report@.take(i as int), trigger, false),
                switched_batch@ == routed_to(s0, report@.take(i as int), trigger, true),
            decreases report@.len() - i,
        {
            let e = report[i];
            let to_switched = self.classify(&e, trigger);
            if to_switched {
                switched_batch.push(e);
            } else {
                default_batch.push(e);
            }
            proof {
                let t = report@.take(i + 1);
                assert(t.drop_last() =~= report@.take(i as int));
                assert(t.last() == e);
            }
            i = i + 1;
        }
        assert(report@.take(i as int) =~= report@);
        Routed { default_batch, switched_batch }
    }

    /// Routes one report and closes both batches for writing.
    pub fn process_report(&mut self, report: &Vec<Event>, trigger: u16) -> (r: Output)
        ensures
            *final(self) == state_after(start_report(*old(self)), report@, trigger),
            flushed_as(
                r.default_write,
                flushed(routed_to(start_report(*old(self)), report@, trigger, false)),
            ),
            flushed_as(
                r.switched_write,
                flushed(routed_to(start_report(*old(self)), report@, trigger, true)),
            ),
    {
        let routed = self.route_report(report, trigger);
        let default_write = finish_batch(routed.default_batch);
        let switched_write = finish_batch(routed.switched_batch);
        Output { default_write, switched_write }
    }
}

/// A flag set in the state after a prefix of `evs` is still set after all
/// of `evs`: within a report, nothing clears either flag.
pub proof fn lemma_flags_persist(s: RouterState, evs: Seq<Event>, trigger: u16, j: int)
    requires
        0 <= j <= evs.len(),
    ensures
        state_after(s, evs.take(j), trigger).switched ==> state_after(s, evs, trigger).switched,
        state_after(s, evs.take(j), trigger).pending_disable ==> state_after(
            s,
            evs,
            trigger,
        ).pending_disable,
    decreases evs.len(),
{
    if j == evs.len() {
        assert(evs.take(j) =~= evs);
    } else {
        let d = evs.drop_last();
        assert(d.take(j) =~= evs.take(j));
        lemma_flags_persist(s, d, trigger, j);
    }
}

/// Once the state right after event `i` is switched, that event and every
/// later one of the report go to the switched destination, in order, and
/// the default destination gets none of them.
pub proof fn lemma_routed_after_switch(s: RouterState, evs: Seq<Event>, trigger: u16, i: int)
    requires
        0 <= i < evs.len(),
        state_after(s, evs.take(i + 1), trigger).switched,
    ensures
        routed_to(s, evs, trigger, true) == routed_to(s, evs.take(i), trigger, true) + evs.skip(i),
        routed_to(s, evs, trigger, false) == routed_to(s, evs.take(i), trigger, false),
    decreases evs.len(),
{
    lemma_flags_persist(s, evs, trigger, i + 1);
    let d = evs.drop_last();
    if evs.len() == i + 1 {
        assert(evs.take(i + 1) =~= evs);
        assert(d =~= evs.take(i));
        assert(evs.skip(i) =~= seq![evs.last()]);
        assert(routed_to(s, evs.take(i), trigger, true) + evs.skip(i) =~= routed_to(
            s,
            evs.take(i),
            trigger,
            true,
        ).push(evs.last()));
    } else {
        assert(d.take(i + 1) =~= evs.take(i + 1));
        assert(d.take(i) =~= evs.take(i));
        lemma_routed_after_switch(s, d, trigger, i);
        assert(d.skip(i).push(evs.last()) =~= evs.skip(i));
        assert(routed_to(s, evs.take(i), trigger, true) + evs.skip(i) =~= (routed_to(
            s,
            evs.take(i),
            trigger,
            true,
        ) + d.skip(i)).push(evs.last()));
    }
}

/// A report without any trigger event goes whole, in order, to the
/// destination in effect at its start; the other destination receives
/// nothing, and the state is left as it was at the start.
pub proof fn lemma_no_trigger_one_destination(prev: RouterState, evs: Seq<Event>, trigger: u16)
    requires
        forall|i: int| 0 <= i < evs.len() ==> !is_trigger_spec(#[trigger] evs[i], trigger),
    ensures
        state_after(start_report(prev), evs, trigger) == start_report(prev),
        routed_to(start_report(prev), evs, trigger, start_report(prev).switched) == evs,
        routed_to(start_report(prev), evs, trigger, !start_report(prev).switched) == Seq::<
            Event,
        >::empty(),
    decreases evs.len(),
{
    if evs.len() > 0 {
        let d = evs.drop_last();
        assert forall|i: int| 0 <= i < d.len() implies !is_trigger_spec(#[trigger] d[i], trigger) by {
            assert(d[i] == evs[i]);
        }
        lemma_no_trigger_one_destination(prev, d, trigger);
        assert(!is_trigger_spec(evs[evs.len() - 1], trigger));
        assert(d.push(evs.last()) =~= evs);
    }
}

/// A trigger press takes effect for the press itself: it and every later
/// event of the same report go to the switched destination.
pub proof fn lemma_press_switches_at_once(s: RouterState, evs: Seq<Event>, trigger: u16, i: int)
    requires
        0 <= i < evs.len(),
        is_trigger_spec(evs[i], trigger),
        evs[i].value != 0,
    ensures
        routed_to(s, evs, trigger, true) == routed_to(s, evs.take(i), trigger, true) + evs.skip(i),
        routed_to(s, evs, trigger, false) == routed_to(s, evs.take(i), trigger, false),
        state_after(s, evs, trigger).switched,
{
    assert(evs.take(i + 1).drop_last() =~= evs.take(i));
    assert(evs.take(i + 1).last() == evs[i]);
    lemma_routed_after_switch(s, evs, trigger, i);
    lemma_flags_persist(s, evs, trigger, i + 1);
}

/// A trigger release while switched still goes to the switched destination,
/// as does the rest of its report; the next report starts in the default
/// state.
pub proof fn lemma_release_takes_effect_next_report(
    s: RouterState,
    evs: Seq<Event>,
    trigger: u16,
    i: int,
)
    requires
        0 <= i < evs.len(),
        is_trigger_spec(evs[i], trigger),
        evs[i].value == 0,
        state_after(s, evs.take(i), trigger).switched,
    ensures
        routed_to(s, evs, trigger, true) == routed_to(s, evs.take(i), trigger, true) + evs.skip(i),
        routed_to(s, evs, trigger, false) == routed_to(s, evs.take(i), trigger, false),
        state_after(s, evs, trigger).switched,
        start_report(state_after(s, evs, trigger)) == (RouterState {
            switched: false,
            pending_disable: false,
        }),
{
    assert(evs.take(i + 1).drop_last() =~= evs.take(i));
    assert(evs.take(i + 1).last() == evs[i]);
    lemma_routed_after_switch(s, evs, trigger, i);
    lemma_flags_persist(s, evs, trigger, i + 1);
}

/// Two trigger presses with no release between them leave the router
/// switched: the second press changes nothing.
pub proof fn lemma_press_idempotent(s: RouterState, p: Event, q: Event, trigger: u16)
    requires
        is_trigger_spec(p, trigger),
        p.value != 0,
        is_trigger_spec(q, trigger),
        q.value != 0,
    ensures
        after_event(after_event(s, p, trigger), q, trigger).switched,
        after_event(after_event(s, p, trigger), q, trigger) == after_event(s, p, trigger),
{
}

/// Routing neither drops nor duplicates an event: the two destinations
/// together hold exactly the events of the report.
pub proof fn lemma_routing_keeps_every_event(s: RouterState, evs: Seq<Event>, trigger: u16)
    ensures
        routed_to(s, evs, trigger, true).to_multiset().add(
            routed_to(s, evs, trigger, false).to_multiset(),
        ) == evs.to_multiset(),
    decreases evs.len(),
{
    broadcast use vstd::seq_lib::group_to_multiset_ensures;

    if evs.len() == 0 {
        assert(evs.to_multiset() =~= Multiset::empty());
        assert(Seq::<Event>::empty().to_multiset() =~= Multiset::empty());
        assert(Multiset::<Event>::empty().add(Multiset::empty()) =~= Multiset::empty());
    } else {
        let d = evs.drop_last();
        lemma_routing_keeps_every_event(s, d, trigger);
        assert(d.push(evs.last()) =~= evs);
        let a = routed_to(s, d, trigger, true).to_multiset();
        let b = routed_to(s, d, trigger, false).to_multiset();
        assert(a.insert(evs.last()).add(b) =~= a.add(b).insert(evs.last()));
        assert(a.add(b.insert(evs.last())) =~= a.add(b).insert(evs.last()));
    }
}

} // verus!
