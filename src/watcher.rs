//! The change watcher: reacts to the rebuild results and to the debounced
//! batches of filesystem changes under the host's source root.
//!
//! The caller owns the debouncer and the thread; it performs each
//! [`WatcherCommand`], prints each report, and hands back what happened.
use vstd::prelude::*;

use crate::orchestrator::{build_error_text, BuildError};

verus! {

/// The settle window: changes closer together than this form one batch.
pub const SETTLE_WINDOW_MS: u64 = 500;

/// The directory watched, recursively: the host's source root.
pub const WATCHED_DIR: &'static str = "src";

/// Where the watcher stands.
#[derive(Clone, Copy, Debug, PartialEq, Eq, Structural)]
pub enum WatcherPhase {
    /// Not started.
    Idle,
    /// The rebuild at startup is running.
    InitialBuild,
    /// The subscription to filesystem changes is being set up.
    Subscribing,
    /// Waiting for changes.
    Watching,
    /// A rebuild is running.
    Rebuilding,
    /// A rebuild is running and changes came after it began.
    RebuildingStale,
    /// The subscription failed; the watcher does not run.
    Stopped,
}

/// What happened since the last command.
pub enum WatcherEvent {
    /// The watcher's thread has started.
    Launched,
    /// A rebuild ended.
    Rebuilt(Result<(), BuildError>),
    /// Subscribing to changes succeeded, or failed with this message.
    Subscribed(Result<(), String>),
    /// One debounced batch: how many filesystem events it holds, or the
    /// error the watch reported.
    Changes(Result<usize, String>),
}

/// What the caller does next.
#[derive(Clone, Copy, Debug, PartialEq, Eq, Structural)]
pub enum WatcherCommand {
    /// Run one rebuild and report its result.
    Rebuild,
    /// Subscribe to changes under [`WATCHED_DIR`], recursively, debounced
    /// over [`SETTLE_WINDOW_MS`].
    Subscribe,
    /// Wait for the next batch.
    Wait,
    /// Stop watching for good.
    Stop,
}

/// A command, and a diagnostic to print before performing it.
pub struct WatcherResponse {
    pub report: Option<String>,
    pub command: WatcherCommand,
}

/// The diagnostic for a rebuild's result: none for a success.
pub open spec fn rebuild_report(r: Result<(), BuildError>) -> Option<Seq<char>> {
    match r {
        Ok(()) => None,
        Err(e) => Some("Couldn't rebuild hot-reloaded functions: "@ + build_error_text(e)),
    }
}

/// The diagnostic for a failure of the watch itself.
pub open spec fn watch_report(m: Seq<char>) -> Seq<char> {
    "Error watching for code changes: "@ + m
}

pub open spec fn report_view(r: Option<String>) -> Option<Seq<char>> {
    match r {
        Some(s) => Some(s@),
        None => None,
    }
}

/// The watcher's rules: from its phase and an event, the next phase, the
/// diagnostic and the command.
pub open spec fn watch_next(phase: WatcherPhase, ev: WatcherEvent) -> (
    WatcherPhase,
    Option<Seq<char>>,
    WatcherCommand,
) {
    match (phase, ev) {
        (WatcherPhase::Stopped, _) => (WatcherPhase::Stopped, None, WatcherCommand::Stop),
        (WatcherPhase::Idle, WatcherEvent::Launched) => (
            WatcherPhase::InitialBuild,
            None,
            WatcherCommand::Rebuild,
        ),
        (WatcherPhase::InitialBuild, WatcherEvent::Rebuilt(r)) => (
            WatcherPhase::Subscribing,
            rebuild_report(r),
            WatcherCommand::Subscribe,
        ),
        (WatcherPhase::Subscribing, WatcherEvent::Subscribed(Ok(()))) => (
            WatcherPhase::Watching,
            None,
            WatcherCommand::Wait,
        ),
        (WatcherPhase::Subscribing, WatcherEvent::Subscribed(Err(m))) => (
            WatcherPhase::Stopped,
            Some(watch_report(m@)),
            WatcherCommand::Stop,
        ),
        (WatcherPhase::Watching, WatcherEvent::Changes(Ok(_))) => (
            WatcherPhase::Rebuilding,
            None,
            WatcherCommand::Rebuild,
        ),
        (WatcherPhase::Rebuilding, WatcherEvent::Changes(Ok(_))) => (
            WatcherPhase::RebuildingStale,
            None,
            WatcherCommand::Wait,
        ),
        (WatcherPhase::RebuildingStale, WatcherEvent::Changes(Ok(_))) => (
            WatcherPhase::RebuildingStale,
            None,
            WatcherCommand::Wait,
        ),
        (_, WatcherEvent::Changes(Err(m))) => (phase, Some(watch_report(m@)), WatcherCommand::Wait),
        (WatcherPhase::Rebuilding, WatcherEvent::Rebuilt(r)) => (
            WatcherPhase::Watching,
            rebuild_report(r),
            WatcherCommand::Wait,
        ),
        (WatcherPhase::RebuildingStale, WatcherEvent::Rebuilt(r)) => (
            WatcherPhase::Rebuilding,
            rebuild_report(r),
            WatcherCommand::Rebuild,
        ),
        _ => (phase, None, WatcherCommand::Wait),
    }
}

/// The watcher's decisions.
pub struct Watcher {
    pub phase: WatcherPhase,
}

fn respond(report: Option<String>, command: WatcherCommand) -> (r: WatcherResponse)
    ensures
        r.report == report,
        r.command == command,
{
    WatcherResponse { report, command }
}

fn rebuild_message(r: &Result<(), BuildError>) -> (m: Option<String>)
    ensures
        report_view(m) == rebuild_report(*r),
{
    match r {
        Ok(()) => None,
        Err(e) => {
            let mut m = String::from_str("Couldn't rebuild hot-reloaded functions: ");
            let text = e.describe();
            m.append(text.as_str());
            Some(m)
        },
    }
}

fn watch_message(cause: &String) -> (m: String)
    ensures
        m@ == watch_report(cause@),
{
    let mut m = String::from_str("Error watching for code changes: ");
    m.append(cause.as_str());
    m
}

impl Watcher {
    /// A watcher that has not started.
    pub fn new() -> (r: Watcher)
        ensures
            r.phase == WatcherPhase::Idle,
    {
        Watcher { phase: WatcherPhase::Idle }
    }

    /// The response to `ev`.
    pub fn handle(&mut self, ev: WatcherEvent) -> (r: WatcherResponse)
        ensures
            (final(self).phase, report_view(r.report), r.command) == watch_next(old(self).phase, ev),
    {
        match (self.phase, ev) {
            (WatcherPhase::Stopped, _) => respond(None, WatcherCommand::Stop),
            (WatcherPhase::Idle, WatcherEvent::Launched) => {
                self.phase = WatcherPhase::InitialBuild;
                respond(None, WatcherCommand::Rebuild)
            },
            (WatcherPhase::InitialBuild, WatcherEvent::Rebuilt(r)) => {
                self.phase = WatcherPhase::Subscribing;
                respond(rebuild_message(&r), WatcherCommand::Subscribe)
            },
            (WatcherPhase::Subscribing, WatcherEvent::Subscribed(Ok(()))) => {
                self.phase = WatcherPhase::Watching;
                respond(None, WatcherCommand::Wait)
            },
            (WatcherPhase::Subscribing, WatcherEvent::Subscribed(Err(m))) => {
                self.phase = WatcherPhase::Stopped;
                respond(Some(watch_message(&m)), WatcherCommand::Stop)
            },
            (WatcherPhase::Watching, WatcherEvent::Changes(Ok(_))) => {
                self.phase = WatcherPhase::Rebuilding;
                respond(None, WatcherCommand::Rebuild)
            },
            (WatcherPhase::Rebuilding, WatcherEvent::Changes(Ok(_))) => {
                self.phase = WatcherPhase::RebuildingStale;
                respond(None, WatcherCommand::Wait)
            },
            (WatcherPhase::RebuildingStale, WatcherEvent::Changes(Ok(_))) => respond(
                None,
                WatcherCommand::Wait,
            ),
            (_, WatcherEvent::Changes(Err(m))) => respond(Some(watch_message(&m)), WatcherCommand::Wait),
            (WatcherPhase::Rebuilding, WatcherEvent::Rebuilt(r)) => {
                self.phase = WatcherPhase::Watching;
                respond(rebuild_message(&r), WatcherCommand::Wait)
            },
            (WatcherPhase::RebuildingStale, WatcherEvent::Rebuilt(r)) => {
                self.phase = WatcherPhase::Rebuilding;
                respond(rebuild_message(&r), WatcherCommand::Rebuild)
            },
            _ => respond(None, WatcherCommand::Wait),
        }
    }
}

/// How many rebuilds the watcher commands while it takes `events` in turn,
/// starting in `phase`.
pub open spec fn rebuilds_commanded(phase: WatcherPhase, events: Seq<WatcherEvent>) -> nat
    decreases events.len(),
{
    if events.len() == 0 {
        0
    } else {
        let (next, _, c) = watch_next(phase, events[0]);
        (if c == WatcherCommand::Rebuild {
            1nat
        } else {
            0nat
        }) + rebuilds_commanded(next, events.drop_first())
    }
}

/// Debounced batches of the given sizes, each followed by the end of the
/// rebuild it caused, with the given results.
pub open spec fn batches_then_rebuilds(
    sizes: Seq<usize>,
    results: Seq<Result<(), BuildError>>,
) -> Seq<WatcherEvent>
    decreases sizes.len(),
{
    if sizes.len() == 0 || results.len() == 0 {
        Seq::empty()
    } else {
        seq![WatcherEvent::Changes(Ok(sizes[0])), WatcherEvent::Rebuilt(results[0])]
            + batches_then_rebuilds(sizes.drop_first(), results.drop_first())
    }
}

/// Each debounced batch causes exactly one rebuild, however many filesystem
/// events it holds: a watching watcher fed `k` batches, each followed by the
/// end of its rebuild, commands `k` rebuilds.
pub proof fn one_rebuild_per_batch(sizes: Seq<usize>, results: Seq<Result<(), BuildError>>)
    requires
        sizes.len() == results.len(),
    ensures
        rebuilds_commanded(WatcherPhase::Watching, batches_then_rebuilds(sizes, results))
            == sizes.len(),
    decreases sizes.len(),
{
    if sizes.len() > 0 {
        let rest = batches_then_rebuilds(sizes.drop_first(), results.drop_first());
        let evs = batches_then_rebuilds(sizes, results);
        one_rebuild_per_batch(sizes.drop_first(), results.drop_first());
        let tail = seq![WatcherEvent::Rebuilt(results[0])] + rest;
        assert(evs[0] == WatcherEvent::Changes(Ok(sizes[0])));
        assert(evs.drop_first() =~= tail);
        assert(tail[0] == WatcherEvent::Rebuilt(results[0]));
        assert(tail.drop_first() =~= rest);
        assert(rebuilds_commanded(WatcherPhase::Rebuilding, tail) == rebuilds_commanded(
            WatcherPhase::Watching,
            rest,
        ));
    }
}

} // verus!
