//! The two execution contexts composed: the aggregator, the coordination
//! channel, and the countdown controller, with the protocol facts that hold
//! over every interleaving of their steps.

use vstd::prelude::*;

use crate::counter::Phase;
use crate::counter::StartCountdown;
use crate::counter::begun_phase;
use crate::counter::ticked_phase;
use crate::watcher::WatcherEffect;
use crate::watcher::WatcherEvent;
use crate::watcher::WatcherView;
use crate::watcher::lemma_stepped_preserves_wf;

verus! {

/// The whole system as the coordination protocol sees it: the aggregator,
/// the begin-countdown messages in flight, the controller phase together
/// with whether the counted countdown's cancellation signal is pending but
/// not yet observed, and how often the session action has been invoked.
#[verifier::ext_equal]
pub struct SystemView {
    /// The configured countdown length, fixed for the process lifetime.
    pub total_secs: u64,
    /// The aggregator.
    pub watcher: WatcherView,
    /// Begin-countdown messages sent but not yet taken, oldest first.
    pub chan: Seq<StartCountdown>,
    /// The controller's phase.
    pub phase: Phase,
    /// Whether the countdown being counted has its cancellation signal
    /// pending: sent into its one-shot channel but not yet observed by the
    /// controller's timed wait.
    pub cancel_pending: bool,
    /// How many times the session action has been invoked.
    pub actions: int,
}

/// One atomic occurrence in either execution context.
pub enum SystemEvent {
    /// The aggregator absorbs one device event and performs its effect on
    /// the coordination channel.
    Deliver { ev: WatcherEvent },
    /// The controller, waiting, takes the next begin-countdown message.
    Take,
    /// One tick of a running countdown completes: the warning went out and
    /// the one-second wait for the cancellation signal ended.
    Tick,
    /// A notification push failed; the controller aborts the countdown (or
    /// its confirmation) back to waiting, taking no action.
    NotifyFail,
    /// The cancellation confirmation was shown.
    ConfirmShown,
}

/// Before anything happens: no devices, an empty channel, a waiting
/// controller, no action taken.
pub open spec fn sys_init(total_secs: u64) -> SystemView {
    SystemView {
        total_secs,
        watcher: WatcherView::init(),
        chan: Seq::empty(),
        phase: Phase::Waiting,
        cancel_pending: false,
        actions: 0,
    }
}

/// The aggregator absorbs one device event; its effect lands on the channel.
/// A begin-countdown message enters uncancelled. A cancellation signal goes
/// to the instance whose sender sits in the slot: the most recently sent
/// message if one is still in flight, else the countdown being counted; if
/// that countdown is already gone, the signal is dropped.
pub open spec fn deliver_step(s: SystemView, ev: WatcherEvent) -> SystemView {
    let stepped = SystemView { watcher: s.watcher.stepped(ev), ..s };
    match s.watcher.effect_of(ev) {
        WatcherEffect::Nothing => stepped,
        WatcherEffect::StartCountdown => SystemView {
            chan: s.chan.push(StartCountdown { cancelled: false }),
            ..stepped
        },
        WatcherEffect::CancelCountdown => if s.chan.len() > 0 {
            SystemView {
                chan: s.chan.update(s.chan.len() - 1, StartCountdown { cancelled: true }),
                ..stepped
            }
        } else if s.phase is Counting {
            SystemView { cancel_pending: true, ..stepped }
        } else {
            stepped
        },
    }
}

/// One step of the composed system. Expiry is terminal: the action has been
/// performed and the process is gone, so nothing moves any more. A
/// controller step whose guard does not hold changes nothing: the controller
/// processes one begin-countdown message fully before accepting the next.
pub open spec fn sys_step(s: SystemView, ev: SystemEvent) -> SystemView {
    if s.phase is Expired {
        s
    } else {
        match ev {
            SystemEvent::Deliver { ev } => deliver_step(s, ev),
            SystemEvent::Take => if s.phase is Waiting && s.chan.len() > 0 {
                let begun = begun_phase(s.total_secs);
                SystemView {
                    chan: s.chan.drop_first(),
                    phase: begun,
                    cancel_pending: begun is Counting && s.chan[0].cancelled,
                    actions: s.actions + (if begun is Expired { 1int } else { 0 }),
                    ..s
                }
            } else {
                s
            },
            SystemEvent::Tick => if s.phase is Counting {
                let ticked = ticked_phase(s.phase, s.cancel_pending);
                SystemView {
                    phase: ticked,
                    cancel_pending: false,
                    actions: s.actions + (if ticked is Expired { 1int } else { 0 }),
                    ..s
                }
            } else {
                s
            },
            SystemEvent::NotifyFail => if s.phase is Counting || s.phase is Cancelled {
                SystemView { phase: Phase::Waiting, cancel_pending: false, ..s }
            } else {
                s
            },
            SystemEvent::ConfirmShown => if s.phase is Cancelled {
                SystemView { phase: Phase::Waiting, cancel_pending: false, ..s }
            } else {
                s
            },
        }
    }
}

/// The system after a whole interleaving of steps, oldest first.
pub open spec fn run_system(total_secs: u64, events: Seq<SystemEvent>) -> SystemView
    decreases events.len(),
{
    if events.len() == 0 {
        sys_init(total_secs)
    } else {
        sys_step(run_system(total_secs, events.drop_last()), events.last())
    }
}

/// How many of the messages in flight are not cancelled.
pub open spec fn count_uncancelled(chan: Seq<StartCountdown>) -> int
    decreases chan.len(),
{
    if chan.len() == 0 {
        0
    } else {
        count_uncancelled(chan.drop_last()) + (if chan.last().cancelled {
            0int
        } else {
            1
        })
    }
}

/// How many countdown instances are outstanding and not cancelled: messages
/// in flight whose cancellation is not pending, plus a counted countdown
/// whose cancellation is not pending. These are the countdowns that can
/// still reach the session action.
pub open spec fn live_count(s: SystemView) -> int {
    count_uncancelled(s.chan) + (if s.phase is Counting && !s.cancel_pending {
        1int
    } else {
        0
    })
}

/// The protocol invariant.
pub open spec fn protocol_inv(s: SystemView) -> bool {
    &&& s.watcher.wf()
    // Every message in flight except possibly the newest is cancelled: a new
    // one is only sent once the slot is empty, and emptying the slot cancels
    // its instance.
    &&& forall|i: int| 0 <= i < s.chan.len() - 1 ==> s.chan[i].cancelled
    // While an uncancelled countdown is being counted, its sender occupies
    // the slot, so nothing further is in flight.
    &&& (s.phase is Counting && !s.cancel_pending) ==> s.chan.len() == 0
    // An empty slot means no uncancelled countdown is outstanding at all.
    &&& !s.watcher.outstanding ==> live_count(s) == 0
    // A countdown in progress holds between one second and the full total.
    &&& (s.phase matches Phase::Counting { remaining } ==> 1 <= remaining <= s.total_secs)
    // The session action has been invoked exactly once after expiry and
    // never before.
    &&& s.actions == (if s.phase is Expired { 1int } else { 0 })
    // A cancellation can only be pending for a countdown being counted.
    &&& s.cancel_pending ==> s.phase is Counting
}

proof fn lemma_count_zero_iff_all_cancelled(chan: Seq<StartCountdown>)
    ensures
        count_uncancelled(chan) >= 0,
        count_uncancelled(chan) == 0 <==> (forall|i: int|
            0 <= i < chan.len() ==> chan[i].cancelled),
    decreases chan.len(),
{
    if chan.len() > 0 {
        lemma_count_zero_iff_all_cancelled(chan.drop_last());
        if count_uncancelled(chan) == 0 {
            assert forall|i: int| 0 <= i < chan.len() implies chan[i].cancelled by {
                if i < chan.len() - 1 {
                    assert(chan.drop_last()[i].cancelled);
                }
            }
        }
        if forall|i: int| 0 <= i < chan.len() ==> chan[i].cancelled {
            assert forall|i: int| 0 <= i < chan.drop_last().len() implies chan.drop_last()[i].cancelled by {
                assert(chan[i].cancelled);
            }
        }
    }
}

/// With every message but the newest cancelled, the uncancelled count is
/// decided by the newest alone.
proof fn lemma_count_decided_by_last(chan: Seq<StartCountdown>)
    requires
        forall|i: int| 0 <= i < chan.len() - 1 ==> chan[i].cancelled,
    ensures
        count_uncancelled(chan) == (if chan.len() > 0 && !chan.last().cancelled {
            1int
        } else {
            0
        }),
{
    if chan.len() > 0 {
        lemma_count_zero_iff_all_cancelled(chan.drop_last());
        assert forall|i: int| 0 <= i < chan.drop_last().len() implies chan.drop_last()[i].cancelled by {
            assert(chan[i].cancelled);
        }
    }
}

proof fn lemma_count_push(chan: Seq<StartCountdown>, m: StartCountdown)
    ensures
        count_uncancelled(chan.push(m)) == count_uncancelled(chan) + (if m.cancelled {
            0int
        } else {
            1
        }),
{
    assert(chan.push(m).drop_last() =~= chan);
    assert(chan.push(m).last() == m);
}

proof fn lemma_count_cancel_last(chan: Seq<StartCountdown>)
    requires
        chan.len() > 0,
    ensures
        count_uncancelled(chan.update(chan.len() - 1, StartCountdown { cancelled: true }))
            == count_uncancelled(chan.drop_last()),
{
    let updated = chan.update(chan.len() - 1, StartCountdown { cancelled: true });
    assert(updated.drop_last() =~= chan.drop_last());
    assert(updated.last() == StartCountdown { cancelled: true });
}

proof fn lemma_count_drop_first(chan: Seq<StartCountdown>)
    requires
        chan.len() > 0,
    ensures
        count_uncancelled(chan.drop_first()) == count_uncancelled(chan) - (if chan[0].cancelled {
            0int
        } else {
            1
        }),
    decreases chan.len(),
{
    if chan.len() == 1 {
        assert(chan.drop_first() =~= Seq::<StartCountdown>::empty());
        assert(chan.drop_last() =~= Seq::<StartCountdown>::empty());
        assert(chan.last() == chan[0]);
    } else {
        lemma_count_drop_first(chan.drop_last());
        assert(chan.drop_first().drop_last() =~= chan.drop_last().drop_first());
        assert(chan.drop_first().last() == chan.last());
        assert(chan.drop_last()[0] == chan[0]);
    }
}

/// The protocol invariant holds initially.
pub proof fn lemma_init_inv(total_secs: u64)
    ensures
        protocol_inv(sys_init(total_secs)),
{
    assert(Set::<u32>::empty().finite());
}

/// The protocol invariant is preserved by every step of either context.
pub proof fn lemma_step_preserves_inv(s: SystemView, ev: SystemEvent)
    requires
        protocol_inv(s),
    ensures
        protocol_inv(sys_step(s, ev)),
{
    if s.phase is Expired {
        return;
    }
    match ev {
        SystemEvent::Deliver { ev: wev } => {
            lemma_stepped_preserves_wf(s.watcher, wev);
            let w2 = s.watcher.stepped(wev);
            match s.watcher.effect_of(wev) {
                WatcherEffect::Nothing => {
                    assert(w2.outstanding == s.watcher.outstanding);
                },
                WatcherEffect::StartCountdown => {
                    assert(!s.watcher.outstanding);
                    assert(w2.outstanding);
                    lemma_count_push(s.chan, StartCountdown { cancelled: false });
                    lemma_count_zero_iff_all_cancelled(s.chan);
                    let s2 = sys_step(s, ev);
                    assert forall|i: int| 0 <= i < s2.chan.len() - 1 implies s2.chan[i].cancelled by {
                        assert(s2.chan[i] == s.chan[i]);
                    }
                    assert(!(s.phase is Counting && !s.cancel_pending));
                },
                WatcherEffect::CancelCountdown => {
                    assert(s.watcher.outstanding);
                    assert(!w2.outstanding);
                    if s.chan.len() > 0 {
                        lemma_count_cancel_last(s.chan);
                        lemma_count_zero_iff_all_cancelled(s.chan.drop_last());
                        assert forall|i: int|
                            0 <= i < s.chan.drop_last().len() implies s.chan.drop_last()[i].cancelled by {
                            assert(s.chan[i].cancelled);
                        }
                        let s2 = sys_step(s, ev);
                        assert(count_uncancelled(s2.chan) == 0);
                        assert(!(s.phase is Counting && !s.cancel_pending));
                        assert forall|i: int| 0 <= i < s2.chan.len() - 1 implies s2.chan[i].cancelled by {
                            assert(s2.chan[i] == s.chan[i]);
                        }
                    }
                },
            }
        },
        SystemEvent::Take => {
            if s.phase is Waiting && s.chan.len() > 0 {
                lemma_count_drop_first(s.chan);
                lemma_count_decided_by_last(s.chan);
                let s2 = sys_step(s, ev);
                assert forall|i: int| 0 <= i < s2.chan.len() - 1 implies s2.chan[i].cancelled by {
                    assert(s2.chan[i] == s.chan[i + 1]);
                }
                if s2.phase is Counting && !s2.cancel_pending {
                    assert(!s.chan[0].cancelled);
                    if s.chan.len() > 1 {
                        assert(s.chan[0].cancelled);
                    }
                    assert(s.chan.len() == 1);
                }
                if !s.watcher.outstanding {
                    lemma_count_zero_iff_all_cancelled(s.chan);
                    assert(s.chan[0].cancelled);
                    lemma_count_zero_iff_all_cancelled(s2.chan);
                    assert forall|i: int| 0 <= i < s2.chan.len() implies s2.chan[i].cancelled by {
                        assert(s2.chan[i] == s.chan[i + 1]);
                    }
                }
            }
        },
        SystemEvent::Tick => {},
        SystemEvent::NotifyFail => {},
        SystemEvent::ConfirmShown => {},
    }
}

/// The protocol invariant holds of every reachable state.
pub proof fn lemma_run_system_inv(total_secs: u64, events: Seq<SystemEvent>)
    ensures
        protocol_inv(run_system(total_secs, events)),
    decreases events.len(),
{
    if events.len() == 0 {
        lemma_init_inv(total_secs);
    } else {
        lemma_run_system_inv(total_secs, events.drop_last());
        lemma_step_preserves_inv(run_system(total_secs, events.drop_last()), events.last());
    }
}

/// At most one countdown instance is ever outstanding, for any interleaving
/// of events: among the begin-countdown messages in flight and the countdown
/// being counted, at most one is uncancelled.
pub proof fn lemma_at_most_one_countdown(total_secs: u64, events: Seq<SystemEvent>)
    ensures
        live_count(run_system(total_secs, events)) <= 1,
{
    lemma_run_system_inv(total_secs, events);
    lemma_count_decided_by_last(run_system(total_secs, events).chan);
}

/// A resume delivered while a countdown is counting uncancelled reaches that
/// countdown: its cancellation becomes pending at once, and the very next
/// tick — at most one second away — moves the controller to `Cancelled`,
/// with no session action fired at either step.
pub proof fn lemma_resume_cancels_within_one_tick(s: SystemView, id: u32)
    requires
        protocol_inv(s),
        s.phase is Counting,
        !s.cancel_pending,
    ensures
        ({
            let delivered = sys_step(s, SystemEvent::Deliver { ev: WatcherEvent::Resumed { id } });
            &&& delivered.cancel_pending
            &&& delivered.phase == s.phase
            &&& delivered.actions == s.actions
            &&& sys_step(delivered, SystemEvent::Tick).phase is Cancelled
            &&& sys_step(delivered, SystemEvent::Tick).actions == s.actions
        }),
{
    lemma_count_decided_by_last(s.chan);
}

/// A countdown that reaches zero uncancelled expires: the tick that burns
/// the last second invokes the session action, exactly once.
pub proof fn lemma_expiry_fires_action_once(s: SystemView)
    requires
        protocol_inv(s),
        s.phase matches Phase::Counting { remaining } && remaining == 1,
        !s.cancel_pending,
    ensures
        sys_step(s, SystemEvent::Tick).phase is Expired,
        sys_step(s, SystemEvent::Tick).actions == 1,
{
}

/// The session action is invoked at most once, whatever happens, and exactly
/// once when the system has expired.
pub proof fn lemma_action_count_exact(total_secs: u64, events: Seq<SystemEvent>)
    ensures
        run_system(total_secs, events).actions == (if run_system(total_secs, events).phase
            is Expired {
            1int
        } else {
            0
        }),
{
    lemma_run_system_inv(total_secs, events);
}

/// Expiry is terminal: once the system has expired, no interleaving of
/// further events changes anything — in particular no subsequent countdown
/// can start and the action count stays at one.
pub proof fn lemma_expired_is_terminal(total_secs: u64, events: Seq<SystemEvent>, more: Seq<
    SystemEvent,
>)
    requires
        run_system(total_secs, events).phase is Expired,
    ensures
        run_system(total_secs, events + more) == run_system(total_secs, events),
    decreases more.len(),
{
    if more.len() == 0 {
        assert(events + more =~= events);
    } else {
        lemma_expired_is_terminal(total_secs, events, more.drop_last());
        assert((events + more).drop_last() =~= events + more.drop_last());
        assert((events + more).last() == more.last());
    }
}

/// A countdown only ever begins from the full configured duration: whenever
/// a step moves the controller from any other phase into counting, the
/// count starts at `total_secs`. In particular, re-idling after a
/// cancellation starts a fresh countdown, never a resumed partial one.
pub proof fn lemma_countdown_begins_full(s: SystemView, ev: SystemEvent)
    requires
        !(s.phase is Counting),
        sys_step(s, ev).phase is Counting,
    ensures
        sys_step(s, ev).phase == (Phase::Counting { remaining: s.total_secs }),
{
}

} // verus!
