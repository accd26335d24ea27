use vstd::prelude::*;
use vstd::set_lib::lemma_subset_equality;

use crate::ids::contains_id;
use crate::ids::insert_id;
use crate::ids::remove_id;

verus! {

/// An event about one monitored device, delivered by the device registry and
/// idle-notification transport, identified by the numeric name the registry
/// assigned to the device.
#[derive(Clone, Copy, Debug, PartialEq, Eq, Structural)]
pub enum WatcherEvent {
    /// A new device appeared and was subscribed for idle notification.
    DeviceAdded { id: u32 },
    /// A known device disappeared.
    DeviceRemoved { id: u32 },
    /// A device has been inactive for the configured span.
    Idled { id: u32 },
    /// A previously idle device saw activity again.
    Resumed { id: u32 },
}

/// What the aggregator asks its surroundings to do after absorbing one event.
#[derive(Clone, Copy, Debug, PartialEq, Eq, Structural)]
pub enum WatcherEffect {
    /// Nothing to do.
    Nothing,
    /// Emit one begin-countdown message carrying a fresh one-shot
    /// cancellation channel; the aggregator now holds the sender end in its
    /// single outstanding-cancel slot.
    StartCountdown,
    /// Signal the outstanding countdown's cancellation channel; the slot is
    /// now empty. If the countdown already ended, the signal is dropped.
    CancelCountdown,
}

/// The aggregator's abstract state: which devices are tracked, which of them
/// are idle, and whether the single outstanding-cancel slot is occupied.
#[verifier::ext_equal]
pub struct WatcherView {
    pub seats: Set<u32>,
    pub idle: Set<u32>,
    pub outstanding: bool,
}

impl WatcherView {
    /// The state before any device is known: nothing tracked, nothing idle,
    /// no countdown outstanding.
    pub open spec fn init() -> WatcherView {
        WatcherView { seats: Set::empty(), idle: Set::empty(), outstanding: false }
    }

    /// Both device sets are finite and only tracked devices can be idle.
    pub open spec fn wf(self) -> bool {
        &&& self.seats.finite()
        &&& self.idle.finite()
        &&& self.idle.subset_of(self.seats)
    }

    /// Global idleness, the signal the whole aggregation exists to derive:
    /// the idle subset equals the full tracked set and that set is non-empty.
    /// With no tracked devices the signal is explicitly false, so an empty
    /// system never starts a countdown.
    pub open spec fn global_idle(self) -> bool {
        self.idle =~= self.seats && self.seats.len() != 0
    }

    /// A newly added device is tracked and starts out active. If a countdown
    /// was outstanding it is cancelled, since the new active device refutes
    /// global idleness.
    pub open spec fn stepped_added(self, id: u32) -> WatcherView {
        WatcherView { seats: self.seats.insert(id), idle: self.idle.remove(id), outstanding: false }
    }

    pub open spec fn effect_added(self) -> WatcherEffect {
        if self.outstanding {
            WatcherEffect::CancelCountdown
        } else {
            WatcherEffect::Nothing
        }
    }

    /// A removed device leaves both sets. If the devices that remain are all
    /// idle and at least one remains, the removal itself establishes global
    /// idleness and a countdown starts, provided none is outstanding.
    pub open spec fn stepped_removed(self, id: u32) -> WatcherView {
        let shrunk = WatcherView {
            seats: self.seats.remove(id),
            idle: self.idle.remove(id),
            outstanding: self.outstanding,
        };
        if shrunk.global_idle() && !self.outstanding {
            WatcherView { seats: shrunk.seats, idle: shrunk.idle, outstanding: true }
        } else {
            shrunk
        }
    }

    pub open spec fn effect_removed(self, id: u32) -> WatcherEffect {
        let shrunk = WatcherView {
            seats: self.seats.remove(id),
            idle: self.idle.remove(id),
            outstanding: self.outstanding,
        };
        if shrunk.global_idle() && !self.outstanding {
            WatcherEffect::StartCountdown
        } else {
            WatcherEffect::Nothing
        }
    }

    /// An idle report marks a tracked device idle, idempotently; one for a
    /// device no longer tracked is stale and ignored. If every tracked device
    /// is now idle, the set is non-empty, and no countdown is outstanding,
    /// a countdown starts.
    pub open spec fn stepped_idled(self, id: u32) -> WatcherView {
        let marked = WatcherView {
            seats: self.seats,
            idle: if self.seats.contains(id) {
                self.idle.insert(id)
            } else {
                self.idle
            },
            outstanding: self.outstanding,
        };
        if marked.global_idle() && !self.outstanding {
            WatcherView { seats: marked.seats, idle: marked.idle, outstanding: true }
        } else {
            marked
        }
    }

    pub open spec fn effect_idled(self, id: u32) -> WatcherEffect {
        let marked = WatcherView {
            seats: self.seats,
            idle: if self.seats.contains(id) {
                self.idle.insert(id)
            } else {
                self.idle
            },
            outstanding: self.outstanding,
        };
        if marked.global_idle() && !self.outstanding {
            WatcherEffect::StartCountdown
        } else {
            WatcherEffect::Nothing
        }
    }

    /// A resume report marks the device active, idempotently, and cancels the
    /// outstanding countdown if there is one; with no countdown outstanding
    /// it is a no-op beyond the set update.
    pub open spec fn stepped_resumed(self, id: u32) -> WatcherView {
        WatcherView { seats: self.seats, idle: self.idle.remove(id), outstanding: false }
    }

    pub open spec fn effect_resumed(self) -> WatcherEffect {
        if self.outstanding {
            WatcherEffect::CancelCountdown
        } else {
            WatcherEffect::Nothing
        }
    }

    /// One step of the aggregation state machine.
    pub open spec fn stepped(self, ev: WatcherEvent) -> WatcherView {
        match ev {
            WatcherEvent::DeviceAdded { id } => self.stepped_added(id),
            WatcherEvent::DeviceRemoved { id } => self.stepped_removed(id),
            WatcherEvent::Idled { id } => self.stepped_idled(id),
            WatcherEvent::Resumed { id } => self.stepped_resumed(id),
        }
    }

    /// The coordination message, if any, that the step emits.
    pub open spec fn effect_of(self, ev: WatcherEvent) -> WatcherEffect {
        match ev {
            WatcherEvent::DeviceAdded { id: _ } => self.effect_added(),
            WatcherEvent::DeviceRemoved { id } => self.effect_removed(id),
            WatcherEvent::Idled { id } => self.effect_idled(id),
            WatcherEvent::Resumed { id: _ } => self.effect_resumed(),
        }
    }
}

/// The aggregator state after absorbing a whole event sequence, oldest event
/// first, starting from the empty initial state.
pub open spec fn view_after(events: Seq<WatcherEvent>) -> WatcherView
    decreases events.len(),
{
    if events.len() == 0 {
        WatcherView::init()
    } else {
        view_after(events.drop_last()).stepped(events.last())
    }
}

/// One step keeps the state well formed; in particular a device can only be
/// idle while it is tracked.
pub proof fn lemma_stepped_preserves_wf(v: WatcherView, ev: WatcherEvent)
    requires
        v.wf(),
    ensures
        v.stepped(ev).wf(),
{
}

/// Every state the aggregator can reach is well formed.
pub proof fn lemma_view_after_wf(events: Seq<WatcherEvent>)
    ensures
        view_after(events).wf(),
    decreases events.len(),
{
    if events.len() == 0 {
        assert(Set::<u32>::empty().finite());
    } else {
        lemma_view_after_wf(events.drop_last());
        lemma_stepped_preserves_wf(view_after(events.drop_last()), events.last());
    }
}

/// Whether the most recent event that concerns device `d` reported it idle:
/// an idle report for `d` not since followed by a resume, a removal, or a
/// re-addition of `d` (an added device starts out active).
pub open spec fn latest_report_idle(events: Seq<WatcherEvent>, d: u32) -> bool
    decreases events.len(),
{
    if events.len() == 0 {
        false
    } else {
        match events.last() {
            WatcherEvent::Idled { id } => if id == d {
                true
            } else {
                latest_report_idle(events.drop_last(), d)
            },
            WatcherEvent::Resumed { id } => if id == d {
                false
            } else {
                latest_report_idle(events.drop_last(), d)
            },
            WatcherEvent::DeviceAdded { id } => if id == d {
                false
            } else {
                latest_report_idle(events.drop_last(), d)
            },
            WatcherEvent::DeviceRemoved { id } => if id == d {
                false
            } else {
                latest_report_idle(events.drop_last(), d)
            },
        }
    }
}

/// The idle subset is exactly what the event history says: a device is held
/// idle after an event sequence precisely when it is still tracked and the
/// last event concerning it was an idle report.
pub proof fn lemma_idle_iff_latest_report(events: Seq<WatcherEvent>, d: u32)
    ensures
        view_after(events).idle.contains(d) <==> (view_after(events).seats.contains(d)
            && latest_report_idle(events, d)),
    decreases events.len(),
{
    if events.len() > 0 {
        lemma_idle_iff_latest_report(events.drop_last(), d);
        lemma_view_after_wf(events.drop_last());
    }
}

/// Global idleness holds after an event sequence exactly when at least one
/// device is tracked and, for every tracked device, the most recent event
/// concerning it reported it idle.
pub proof fn lemma_global_idle_exact(events: Seq<WatcherEvent>)
    ensures
        view_after(events).global_idle() <==> (view_after(events).seats.len() != 0
            && forall|d: u32| view_after(events).seats.contains(d) ==> latest_report_idle(
                events,
                d,
            )),
{
    lemma_view_after_wf(events);
    let v = view_after(events);
    assert forall|d: u32| v.idle.contains(d) <==> (v.seats.contains(d) && latest_report_idle(
        events,
        d,
    )) by {
        lemma_idle_iff_latest_report(events, d);
    }
    if v.seats.len() != 0 && (forall|d: u32| v.seats.contains(d) ==> latest_report_idle(
        events,
        d,
    )) {
        assert forall|x: u32| v.idle.contains(x) == v.seats.contains(x) by {
            if v.seats.contains(x) {
                assert(latest_report_idle(events, x));
            }
            if v.idle.contains(x) {
                assert(v.seats.contains(x));
            }
        }
        assert(v.idle =~= v.seats);
    }
    if v.global_idle() {
        assert(v.seats.len() != 0);
    }
}

/// Tracks the monitored devices, the idle subset among them, and the single
/// outstanding-cancel slot. The device sets hold only the numeric names; the
/// surrounding process owns the device handles and the channel endpoints that
/// the names and the slot stand for.
pub struct WatcherState {
    seats: Vec<u32>,
    idle_seats: Vec<u32>,
    countdown_outstanding: bool,
}

impl View for WatcherState {
    type V = WatcherView;

    closed spec fn view(&self) -> WatcherView {
        WatcherView {
            seats: self.seats@.to_set(),
            idle: self.idle_seats@.to_set(),
            outstanding: self.countdown_outstanding,
        }
    }
}

impl WatcherState {
    /// The representation stores each device name at most once, so that the
    /// length comparison below decides set equality.
    pub closed spec fn wf(&self) -> bool {
        &&& self.seats@.no_duplicates()
        &&& self.idle_seats@.no_duplicates()
        &&& self@.idle.subset_of(self@.seats)
    }

    pub proof fn lemma_wf_view(&self)
        requires
            self.wf(),
        ensures
            self@.wf(),
    {
        broadcast use vstd::seq_lib::seq_to_set_is_finite;

    }

    pub fn new() -> (s: Self)
        ensures
            s.wf(),
            s@ == WatcherView::init(),
    {
        let s = WatcherState {
            seats: Vec::new(),
            idle_seats: Vec::new(),
            countdown_outstanding: false,
        };
        proof {
            assert(Seq::<u32>::empty().to_set() =~= Set::<u32>::empty());
            assert(s@ =~= WatcherView::init());
        }
        s
    }

    /// Tracks a new device. The surroundings have already bound its handle
    /// and subscribed it for idle notification; it starts out active. A
    /// countdown outstanding at this point is cancelled.
    pub fn device_added(&mut self, id: u32) -> (eff: WatcherEffect)
        requires
            old(self).wf(),
        ensures
            final(self).wf(),
            final(self)@ == old(self)@.stepped_added(id),
            eff == old(self)@.effect_added(),
    {
        insert_id(&mut self.seats, id);
        remove_id(&mut self.idle_seats, id);
        let had_countdown = self.countdown_outstanding;
        self.countdown_outstanding = false;
        proof {
            assert(final(self)@ =~= old(self)@.stepped_added(id));
        }
        if had_countdown {
            WatcherEffect::CancelCountdown
        } else {
            WatcherEffect::Nothing
        }
    }

    /// Stops tracking a device. If the devices that remain are all idle and
    /// at least one remains, a countdown starts now.
    pub fn device_removed(&mut self, id: u32) -> (eff: WatcherEffect)
        requires
            old(self).wf(),
        ensures
            final(self).wf(),
            final(self)@ == old(self)@.stepped_removed(id),
            eff == old(self)@.effect_removed(id),
    {
        remove_id(&mut self.seats, id);
        remove_id(&mut self.idle_seats, id);
        self.maybe_start_countdown()
    }

    /// Records that a tracked device went idle; a report for an untracked
    /// device is stale and ignored. If now every tracked device is idle and
    /// there is at least one, a countdown starts.
    pub fn idled(&mut self, id: u32) -> (eff: WatcherEffect)
        requires
            old(self).wf(),
        ensures
            final(self).wf(),
            final(self)@ == old(self)@.stepped_idled(id),
            eff == old(self)@.effect_idled(id),
    {
        if contains_id(&self.seats, id) {
            insert_id(&mut self.idle_seats, id);
        }
        self.maybe_start_countdown()
    }

    /// Records that a device is active again and cancels the outstanding
    /// countdown, if any.
    pub fn resumed(&mut self, id: u32) -> (eff: WatcherEffect)
        requires
            old(self).wf(),
        ensures
            final(self).wf(),
            final(self)@ == old(self)@.stepped_resumed(id),
            eff == old(self)@.effect_resumed(),
    {
        remove_id(&mut self.idle_seats, id);
        let had_countdown = self.countdown_outstanding;
        self.countdown_outstanding = false;
        proof {
            assert(final(self)@ =~= old(self)@.stepped_resumed(id));
        }
        if had_countdown {
            WatcherEffect::CancelCountdown
        } else {
            WatcherEffect::Nothing
        }
    }

    /// Absorbs one event and reports what to do about it.
    pub fn on_event(&mut self, ev: WatcherEvent) -> (eff: WatcherEffect)
        requires
            old(self).wf(),
        ensures
            final(self).wf(),
            final(self)@ == old(self)@.stepped(ev),
            eff == old(self)@.effect_of(ev),
    {
        match ev {
            WatcherEvent::DeviceAdded { id } => self.device_added(id),
            WatcherEvent::DeviceRemoved { id } => self.device_removed(id),
            WatcherEvent::Idled { id } => self.idled(id),
            WatcherEvent::Resumed { id } => self.resumed(id),
        }
    }

    /// Recomputes global idleness fresh from the two sets and, when it holds
    /// with the slot empty, claims the slot and asks for a countdown.
    fn maybe_start_countdown(&mut self) -> (eff: WatcherEffect)
        requires
            old(self).wf(),
        ensures
            final(self).wf(),
            final(self).seats@ == old(self).seats@,
            final(self).idle_seats@ == old(self).idle_seats@,
            final(self)@ == (if old(self)@.global_idle() && !old(self)@.outstanding {
                WatcherView {
                    seats: old(self)@.seats,
                    idle: old(self)@.idle,
                    outstanding: true,
                }
            } else {
                old(self)@
            }),
            eff == (if old(self)@.global_idle() && !old(self)@.outstanding {
                WatcherEffect::StartCountdown
            } else {
                WatcherEffect::Nothing
            }),
    {
        let all_idle = self.idle_seats.len() == self.seats.len();
        proof {
            self.lemma_len_equality_decides_global_idle();
        }
        if all_idle && self.seats.len() > 0 && !self.countdown_outstanding {
            self.countdown_outstanding = true;
            proof {
                assert(final(self)@ =~= WatcherView {
                    seats: old(self)@.seats,
                    idle: old(self)@.idle,
                    outstanding: true,
                });
            }
            WatcherEffect::StartCountdown
        } else {
            WatcherEffect::Nothing
        }
    }

    /// Whether the outstanding-cancel slot is occupied.
    pub fn is_countdown_outstanding(&self) -> (outstanding: bool)
        ensures
            outstanding == self@.outstanding,
    {
        self.countdown_outstanding
    }

    /// Recomputes the derived global-idle signal fresh from the two sets.
    pub fn is_global_idle(&self) -> (idle: bool)
        requires
            self.wf(),
        ensures
            idle == self@.global_idle(),
    {
        proof {
            self.lemma_len_equality_decides_global_idle();
        }
        self.idle_seats.len() == self.seats.len() && self.seats.len() > 0
    }

    /// How many devices are tracked.
    pub fn tracked_count(&self) -> (n: usize)
        requires
            self.wf(),
        ensures
            n == self@.seats.len(),
    {
        proof {
            self.seats@.unique_seq_to_set();
        }
        self.seats.len()
    }

    /// How many tracked devices are idle.
    pub fn idle_count(&self) -> (n: usize)
        requires
            self.wf(),
        ensures
            n == self@.idle.len(),
    {
        proof {
            self.idle_seats@.unique_seq_to_set();
        }
        self.idle_seats.len()
    }

    /// With duplicate-free representations and the idle subset contained in
    /// the tracked set, equal lengths mean equal sets.
    proof fn lemma_len_equality_decides_global_idle(&self)
        requires
            self.wf(),
        ensures
            (self.idle_seats@.len() == self.seats@.len() && self.seats@.len() > 0)
                == self@.global_idle(),
    {
        broadcast use vstd::seq_lib::seq_to_set_is_finite;

        self.seats@.unique_seq_to_set();
        self.idle_seats@.unique_seq_to_set();
        if self.idle_seats@.len() == self.seats@.len() {
            lemma_subset_equality(self@.idle, self@.seats);
        } else {
            if self@.idle =~= self@.seats {
                assert(self@.idle.len() == self@.seats.len());
            }
        }
    }
}

} // verus!
