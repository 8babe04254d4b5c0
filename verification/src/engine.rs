//! The change-detection state machine. It owns the in-memory last-known
//! address, consumes lookup outcomes as events, and decides which action
//! the surrounding loop performs: retry, skip, notify, persist. The loop
//! itself — HTTP calls, sleeps, signal handling — stays outside; it feeds
//! events in and carries the returned actions out.

use vstd::prelude::*;
use crate::blacklist;

verus! {

/// The phase of the change loop.
#[derive(Clone, Copy, Debug, PartialEq, Eq, Structural)]
pub enum Phase {
    /// No last-known address exists yet; lookups are retried until one
    /// succeeds.
    Bootstrapping,
    /// A last-known address exists; each tick compares a fresh candidate
    /// against it.
    Steady,
    /// An external interruption was received; the loop ends.
    Terminated,
}

/// What the surrounding loop must do after an event is consumed.
#[derive(Clone, Copy, Debug, PartialEq, Eq, Structural)]
pub enum Action {
    /// Bootstrap lookup failed: wait out the fixed backoff, then retry.
    RetryBootstrap,
    /// First address obtained: persist it and send the initial
    /// notification; a delivery failure here is fatal to startup.
    CommitBootstrap,
    /// Steady-state lookup failed: report it and sleep out the tick.
    ReportLookupFailure,
    /// The candidate matched a blacklist rule: skip the cycle entirely —
    /// no comparison, no notification, no persistence.
    SkipBlacklisted,
    /// The candidate equals the last-known address: nothing to do.
    NoChange,
    /// The address changed: deliver a notification (best effort), then
    /// persist the new value regardless of the delivery outcome.
    NotifyAndPersist,
}

/// The change loop's state: its phase and the address it currently
/// believes is the caller's public address.
pub struct Engine {
    pub phase: Phase,
    pub last_known: Option<String>,
}

impl Engine {
    /// A last-known address exists exactly when bootstrap is behind us.
    pub open spec fn wf(&self) -> bool {
        match self.phase {
            Phase::Bootstrapping => self.last_known is None,
            Phase::Steady => self.last_known is Some,
            Phase::Terminated => true,
        }
    }

    /// Starts the loop from the persisted record: a stored address skips
    /// bootstrap entirely (and no notification is sent for it); with no
    /// record the loop must bootstrap first.
    pub fn start(loaded: Option<String>) -> (e: Engine)
        ensures
            e.wf(),
            e.last_known == loaded,
            e.phase == (if loaded is Some {
                Phase::Steady
            } else {
                Phase::Bootstrapping
            }),
    {
        match loaded {
            Some(addr) => Engine { phase: Phase::Steady, last_known: Some(addr) },
            None => Engine { phase: Phase::Bootstrapping, last_known: None },
        }
    }

    /// A lookup attempt failed. No state changes: during bootstrap the
    /// loop backs off and retries without bound, in steady state it
    /// reports the failure and sleeps out the tick.
    pub fn on_lookup_failure(&self) -> (a: Action)
        requires
            self.phase != Phase::Terminated,
        ensures
            a == (if self.phase is Bootstrapping {
                Action::RetryBootstrap
            } else {
                Action::ReportLookupFailure
            }),
    {
        match self.phase {
            Phase::Bootstrapping => Action::RetryBootstrap,
            _ => Action::ReportLookupFailure,
        }
    }

    /// A lookup produced `candidate` (an empty string is a valid
    /// candidate like any other). During bootstrap the candidate is
    /// adopted unfiltered. In steady state the blacklist is consulted
    /// first; an unfiltered candidate is then compared against the
    /// last-known value, and only a differing candidate is adopted —
    /// unconditionally, whatever becomes of the notification.
    pub fn on_candidate(&mut self, candidate: String, rules: &Vec<Option<String>>) -> (a: Action)
        requires
            old(self).wf(),
            old(self).phase != Phase::Terminated,
        ensures
            final(self).wf(),
            old(self).phase is Bootstrapping ==> a == Action::CommitBootstrap && final(self).phase
                is Steady && final(self).last_known == Some(candidate),
            old(self).phase is Steady ==> {
                if blacklist::blacklisted(rules.deep_view(), candidate@) {
                    a == Action::SkipBlacklisted && *final(self) == *old(self)
                } else if old(self).last_known matches Some(l) && l@ == candidate@ {
                    a == Action::NoChange && *final(self) == *old(self)
                } else {
                    a == Action::NotifyAndPersist && final(self).phase is Steady
                        && final(self).last_known == Some(candidate)
                }
            },
    {
        match self.phase {
            Phase::Bootstrapping => {
                self.last_known = Some(candidate);
                self.phase = Phase::Steady;
                Action::CommitBootstrap
            },
            Phase::Steady => {
                if blacklist::matches(candidate.as_str(), rules) {
                    Action::SkipBlacklisted
                } else {
                    let same = match &self.last_known {
                        Some(l) => *l == candidate,
                        None => false,
                    };
                    if same {
                        Action::NoChange
                    } else {
                        self.last_known = Some(candidate);
                        Action::NotifyAndPersist
                    }
                }
            },
            Phase::Terminated => unreached(),
        }
    }

    /// An external interruption arrived: the loop ends. Nothing more is
    /// persisted — the last persisted value is already current.
    pub fn on_interrupt(&mut self)
        ensures
            final(self).phase == Phase::Terminated,
            final(self).last_known == old(self).last_known,
    {
        self.phase = Phase::Terminated;
    }
}

} // verus!
