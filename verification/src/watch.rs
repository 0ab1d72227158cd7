//! Hot-plug watching: the subscription settings and the debounce that
//! turns a burst of kernel events into one refresh.
//!
//! The udev socket and the clock belong to the caller. Each turn of its
//! loop waits on the socket for at most [`Debounce::timeout_ms`], reports
//! what the wait gave to [`Debounce::after_wait`], and refreshes when that
//! says so. The first refresh, before any waiting, is
//! [`RefreshReason::Initial`]; the later ones are
//! [`RefreshReason::Hotplug`].

use vstd::prelude::*;
use crate::text::owned;

verus! {

broadcast use vstd::string::group_string_axioms;

/// Outcome of one wait on the udev socket.
#[derive(Debug, Clone, Copy, PartialEq, Eq, Structural)]
pub enum WaitResult {
    /// The socket has data: drain it and schedule a refresh.
    Readable,
    /// The timeout elapsed.
    Timeout,
    /// The wait was interrupted (e.g. by a signal); loop again.
    Interrupted,
}

/// Why the refresh callback runs.
#[derive(Debug, Clone, Copy, PartialEq, Eq, Structural)]
pub enum RefreshReason {
    /// First call, before the watcher starts blocking.
    Initial,
    /// One or more kernel uevents arrived inside the previous debounce
    /// window.
    Hotplug,
}

/// Subscriptions of a watcher.
#[derive(Debug, Clone)]
pub struct WatcherConfig {
    /// Subsystems to subscribe to.
    pub subsystems: Vec<String>,
}

impl Default for WatcherConfig {
    /// The pair this tool cares about: `usb` and `typec`.
    fn default() -> (r: Self)
        ensures
            r.subsystems@.map_values(|s: String| s@) == seq!["usb"@, "typec"@],
    {
        let mut subsystems: Vec<String> = Vec::new();
        subsystems.push(owned("usb"));
        subsystems.push(owned("typec"));
        assert(subsystems@.map_values(|s: String| s@) =~= seq!["usb"@, "typec"@]);
        WatcherConfig { subsystems }
    }
}

/// The debounce window: the time, in milliseconds on the caller's clock,
/// at which the pending refresh falls due; `None` when nothing is pending.
#[derive(Debug, Clone, Copy, PartialEq, Eq, Structural)]
pub struct Debounce {
    /// Deadline of the pending refresh.
    pub deadline_ms: Option<u64>,
}

/// One step of the debounce: given the pending deadline and what a wait
/// returned at `now_ms`, whether to refresh and the deadline after it.
/// Events (re)start the window of `debounce_ms`; an interrupted wait
/// decides nothing; a pending refresh falls due once the clock reaches its
/// deadline, and is then cleared.
pub open spec fn debounce_step(
    deadline: Option<u64>,
    result: WaitResult,
    now_ms: u64,
    debounce_ms: u64,
) -> (bool, Option<u64>) {
    if result == WaitResult::Interrupted {
        (false, deadline)
    } else {
        let pending = if result == WaitResult::Readable {
            Some((now_ms + debounce_ms) as u64)
        } else {
            deadline
        };
        let fire = pending matches Some(d) && now_ms >= d;
        (fire, if fire {
            None
        } else {
            pending
        })
    }
}

impl Debounce {
    /// Nothing pending.
    pub fn new() -> (d: Debounce)
        ensures
            d.deadline_ms is None,
    {
        Debounce { deadline_ms: None }
    }

    /// How long the next wait may block: until the deadline (zero once it
    /// has passed), or forever (`None`) when nothing is pending.
    pub fn timeout_ms(&self, now_ms: u64) -> (r: Option<u64>)
        ensures
            r == match self.deadline_ms {
                Some(d) => Some(if d >= now_ms {
                    (d - now_ms) as u64
                } else {
                    0u64
                }),
                None => None::<u64>,
            },
    {
        match self.deadline_ms {
            Some(d) => Some(d.saturating_sub(now_ms)),
            None => None,
        }
    }

    /// Take the outcome of a wait that returned at `now_ms`; `true` when
    /// the caller should refresh now (see [`debounce_step`]).
    pub fn after_wait(&mut self, result: WaitResult, now_ms: u64, debounce_ms: u64) -> (fire: bool)
        requires
            now_ms + debounce_ms <= u64::MAX,
        ensures
            (fire, final(self).deadline_ms) == debounce_step(
                old(self).deadline_ms,
                result,
                now_ms,
                debounce_ms,
            ),
    {
        match result {
            WaitResult::Interrupted => {
                return false;
            },
            WaitResult::Readable => {
                self.deadline_ms = Some(now_ms + debounce_ms);
            },
            WaitResult::Timeout => {},
        }
        match self.deadline_ms {
            Some(d) => {
                if now_ms >= d {
                    self.deadline_ms = None;
                    true
                } else {
                    false
                }
            },
            None => false,
        }
    }
}

} // verus!
