use vstd::prelude::*;

use crate::ids::contains_id;

verus! {

/// The terminal operation performed when a countdown expires: end the
/// session, or only lock it for members of an immune group.
#[derive(Clone, Copy, Debug, PartialEq, Eq, Structural)]
pub enum Action {
    LogOut,
    LockSession,
}

/// True when some group identifier appears both among the current
/// credentials' memberships and among the immune groups.
pub open spec fn is_immune(member_gids: Seq<u32>, immune_gids: Seq<u32>) -> bool {
    exists|g: u32| member_gids.contains(g) && immune_gids.contains(g)
}

impl Action {
    /// Resolves the session action, once at startup, from the group
    /// memberships of the current credentials: membership in any immune
    /// group means the session is locked at expiry instead of ended.
    pub fn resolve_for_groups(member_gids: &Vec<u32>, immune_gids: &Vec<u32>) -> (action: Action)
        ensures
            action == (if is_immune(member_gids@, immune_gids@) {
                Action::LockSession
            } else {
                Action::LogOut
            }),
    {
        let mut i: usize = 0;
        while i < immune_gids.len()
            invariant
                i <= immune_gids@.len(),
                forall|j: int| 0 <= j < i ==> !member_gids@.contains(immune_gids@[j]),
            decreases immune_gids@.len() - i,
        {
            if contains_id(member_gids, immune_gids[i]) {
                proof {
                    assert(member_gids@.contains(immune_gids@[i as int])
                        && immune_gids@.contains(immune_gids@[i as int]));
                }
                return Action::LockSession;
            }
            i += 1;
        }
        proof {
            if is_immune(member_gids@, immune_gids@) {
                let g = choose|g: u32| member_gids@.contains(g) && immune_gids@.contains(g);
                let j = choose|j: int| 0 <= j < immune_gids@.len() && immune_gids@[j] == g;
                assert(!member_gids@.contains(immune_gids@[j]));
            }
        }
        Action::LogOut
    }
}

/// The fixed set of immune groups: membership in any of them resolves the
/// session action to locking instead of logging out. The surroundings look
/// these names up in the group database and hand the resolver the resulting
/// identifiers.
pub fn immune_group_names() -> (names: Vec<String>)
    ensures
        names@.len() == 2,
        names@[0]@ == "ocfstaff"@,
        names@[1]@ == "opstaff"@,
{
    let mut names: Vec<String> = Vec::new();
    names.push("ocfstaff".to_string());
    names.push("opstaff".to_string());
    names
}

/// A begin-countdown message, as the coordination protocol sees it. The real
/// message carries the receiver end of the countdown's one-shot cancellation
/// channel; here the channel appears as its one observable fact, whether the
/// cancellation signal has been sent into it.
#[derive(Clone, Copy, Debug, PartialEq, Eq, Structural)]
pub struct StartCountdown {
    /// Whether this countdown's cancellation signal is already pending.
    pub cancelled: bool,
}

/// The phase the countdown controller is in.
#[derive(Clone, Copy, Debug, PartialEq, Eq, Structural)]
pub enum Phase {
    /// Blocked until a begin-countdown message arrives.
    Waiting,
    /// Counting down, one tick per second, `remaining` seconds to go.
    Counting { remaining: u64 },
    /// The countdown was cancelled; a confirmation is still to be shown.
    Cancelled,
    /// The countdown ran out: the session action is owed, and nothing else
    /// ever happens.
    Expired,
}

/// What the surrounding loop must do next on the controller's behalf.
#[derive(Clone, Copy, Debug, PartialEq, Eq, Structural)]
pub enum Directive {
    /// Block until a begin-countdown message arrives, then report it via
    /// `on_begin`.
    AwaitBegin,
    /// Push the countdown warning with the seconds remaining, replacing the
    /// message with identity `replaces_id` (0 for a fresh message), then wait
    /// up to one second for the cancellation signal and report the outcome
    /// via `on_wait_outcome`.
    Notify { replaces_id: u32, remaining: u64 },
    /// Push the cancellation confirmation in place of the countdown warning,
    /// then report via `on_confirm_shown`.
    NotifyCancelled { replaces_id: u32 },
    /// Perform the resolved session action and shut the process down.
    Act,
}

/// The phase a countdown begins in: counting from the full configured total,
/// or, for a zero-length countdown, expired on the spot.
pub open spec fn begun_phase(total_secs: u64) -> Phase {
    if total_secs == 0 {
        Phase::Expired
    } else {
        Phase::Counting { remaining: total_secs }
    }
}

/// One tick of the countdown: a pending cancellation wins over the tick; an
/// uncancelled tick burns one second, and burning the last second expires
/// the countdown.
pub open spec fn ticked_phase(p: Phase, cancelled: bool) -> Phase {
    match p {
        Phase::Counting { remaining } => if cancelled {
            Phase::Cancelled
        } else if remaining <= 1 {
            Phase::Expired
        } else {
            Phase::Counting { remaining: (remaining - 1) as u64 }
        },
        _ => p,
    }
}

/// The countdown controller: consumes begin-countdown messages, runs the
/// once-per-second warning loop against possible cancellation, and reports
/// expiry to the surroundings rather than act itself, so that the one
/// irreversible step stays outside.
pub struct Controller {
    /// The configured countdown length in seconds, fixed for the process
    /// lifetime; every countdown starts from this full value.
    pub total_secs: u64,
    /// The current phase.
    pub phase: Phase,
    /// The notification identity under which the running countdown's warning
    /// is shown, so each tick updates one visible message in place; 0 before
    /// the first push of a countdown.
    pub notif_id: u32,
}

impl Controller {
    /// A countdown in progress never holds more seconds than the configured
    /// total, and always at least one.
    pub open spec fn wf(self) -> bool {
        self.phase matches Phase::Counting { remaining } ==> 1 <= remaining
            <= self.total_secs
    }

    pub fn new(total_secs: u64) -> (c: Controller)
        ensures
            c.wf(),
            c.total_secs == total_secs,
            c.phase == Phase::Waiting,
            c.notif_id == 0,
    {
        Controller { total_secs, phase: Phase::Waiting, notif_id: 0 }
    }

    /// What the surrounding loop must do in the current phase.
    pub fn directive(&self) -> (d: Directive)
        ensures
            d == match self.phase {
                Phase::Waiting => Directive::AwaitBegin,
                Phase::Counting { remaining } => Directive::Notify {
                    replaces_id: self.notif_id,
                    remaining,
                },
                Phase::Cancelled => Directive::NotifyCancelled { replaces_id: self.notif_id },
                Phase::Expired => Directive::Act,
            },
    {
        match self.phase {
            Phase::Waiting => Directive::AwaitBegin,
            Phase::Counting { remaining } => Directive::Notify {
                replaces_id: self.notif_id,
                remaining,
            },
            Phase::Cancelled => Directive::NotifyCancelled { replaces_id: self.notif_id },
            Phase::Expired => Directive::Act,
        }
    }

    /// A begin-countdown message arrived: start counting from the full
    /// configured total, with a fresh notification identity.
    pub fn on_begin(&mut self)
        requires
            old(self).wf(),
            old(self).phase == Phase::Waiting,
        ensures
            final(self).wf(),
            final(self).phase == begun_phase(old(self).total_secs),
            final(self).total_secs == old(self).total_secs,
            final(self).notif_id == 0,
    {
        self.notif_id = 0;
        if self.total_secs == 0 {
            self.phase = Phase::Expired;
        } else {
            self.phase = Phase::Counting { remaining: self.total_secs };
        }
    }

    /// The warning for this tick went out under the given notification
    /// identity; the next tick will update that same message.
    pub fn on_notified(&mut self, id: u32)
        requires
            old(self).wf(),
            old(self).phase is Counting,
        ensures
            final(self).wf(),
            final(self).phase == old(self).phase,
            final(self).total_secs == old(self).total_secs,
            final(self).notif_id == id,
    {
        self.notif_id = id;
    }

    /// The warning could not be shown: abort this countdown without acting,
    /// rather than let an unwarned expiry end the session, and go back to
    /// waiting. Also the way back when the cancellation confirmation fails.
    pub fn on_notify_failed(&mut self)
        requires
            old(self).wf(),
            old(self).phase is Counting || old(self).phase is Cancelled,
        ensures
            final(self).wf(),
            final(self).phase == Phase::Waiting,
            final(self).total_secs == old(self).total_secs,
            final(self).notif_id == old(self).notif_id,
    {
        self.phase = Phase::Waiting;
    }

    /// The up-to-one-second wait after a tick's warning ended: either the
    /// cancellation signal arrived in time, or the tick elapsed and one
    /// second is burned, expiring the countdown when it was the last.
    pub fn on_wait_outcome(&mut self, cancelled: bool)
        requires
            old(self).wf(),
            old(self).phase is Counting,
        ensures
            final(self).wf(),
            final(self).phase == ticked_phase(old(self).phase, cancelled),
            final(self).total_secs == old(self).total_secs,
            final(self).notif_id == old(self).notif_id,
    {
        if cancelled {
            self.phase = Phase::Cancelled;
        } else {
            match self.phase {
                Phase::Counting { remaining } => {
                    if remaining <= 1 {
                        self.phase = Phase::Expired;
                    } else {
                        self.phase = Phase::Counting { remaining: remaining - 1 };
                    }
                },
                _ => {},
            }
        }
    }

    /// The cancellation confirmation was shown: the countdown is over and the
    /// controller waits for the next begin-countdown message.
    pub fn on_confirm_shown(&mut self)
        requires
            old(self).wf(),
            old(self).phase is Cancelled,
        ensures
            final(self).wf(),
            final(self).phase == Phase::Waiting,
            final(self).total_secs == old(self).total_secs,
            final(self).notif_id == old(self).notif_id,
    {
        self.phase = Phase::Waiting;
    }
}

} // verus!
