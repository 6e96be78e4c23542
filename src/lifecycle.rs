//! The lifecycle singleton: the background watcher starts at most once per
//! process, however many times activation is asked for.
use vstd::prelude::*;

verus! {

/// What one activation returns, and the flag after it: only the activation
/// that finds the flag clear may start the watcher, and every activation
/// leaves the flag set.
pub open spec fn activation_step(started: bool) -> (bool, bool) {
    (!started, true)
}

/// How many of `m` successive activations, from a flag that is `started`,
/// may start the watcher.
pub open spec fn watcher_starts(started: bool, m: nat) -> nat
    decreases m,
{
    if m == 0 {
        0
    } else {
        let (first, next) = activation_step(started);
        (if first {
            1nat
        } else {
            0nat
        }) + watcher_starts(next, (m - 1) as nat)
    }
}

/// The process-wide activation flag: set by the first activation, never
/// cleared. Callers on several threads share it behind a lock, so their
/// activations happen one after another.
pub struct ActivationFlag {
    started: bool,
}

impl ActivationFlag {
    /// Whether the watcher has been started.
    pub closed spec fn started(&self) -> bool {
        self.started
    }

    /// A flag that no activation has set yet.
    pub fn new() -> (r: ActivationFlag)
        ensures
            !r.started(),
    {
        ActivationFlag { started: false }
    }

    /// Whether the watcher has been started.
    pub fn is_started(&self) -> (r: bool)
        ensures
            r == self.started(),
    {
        self.started
    }

    /// Sets the flag; true exactly when this call is the one that set it, and
    /// so the one that must start the watcher.
    pub fn activate(&mut self) -> (first: bool)
        ensures
            (first, final(self).started()) == activation_step(old(self).started()),
    {
        let first = !self.started;
        self.started = true;
        first
    }
}

/// Once the flag is set, no further activation starts a watcher.
pub proof fn no_start_after_activation(m: nat)
    ensures
        watcher_starts(true, m) == 0,
    decreases m,
{
    if m > 0 {
        no_start_after_activation((m - 1) as nat);
    }
}

/// Any number `m >= 1` of activations, starting from a fresh flag, starts
/// exactly one watcher.
pub proof fn activations_start_one_watcher(m: nat)
    requires
        m >= 1,
    ensures
        watcher_starts(false, m) == 1,
{
    no_start_after_activation((m - 1) as nat);
}

} // verus!
