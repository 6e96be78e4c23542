use kauma_hot_reload::layout::{
    artifact_path, cargo_target_dir, get_cargo_target_dirs, guess_shared_library_filename,
    join_path, RebuildPaths, TargetOs,
};
use kauma_hot_reload::lifecycle::ActivationFlag;
use kauma_hot_reload::orchestrator::{
    BuildError, RebuildAction, RebuildEvent, RebuildSession, RebuildStage,
};
use kauma_hot_reload::watcher::{Watcher, WatcherCommand, WatcherEvent, WatcherPhase};
use kauma_hot_reload::{do_stuff, do_stuff2, State, KAUMA_ENV_VAR};

const HOST: &str = "[package]\nname = \"host\"\n\n[dependencies]\nlocal = { path = \"local\" }\n";

#[test]
fn library_filenames_follow_the_os() {
    assert_eq!(guess_shared_library_filename("x", TargetOs::Linux), "libx.so");
    assert_eq!(guess_shared_library_filename("x", TargetOs::MacOs), "libx.dylib");
    assert_eq!(guess_shared_library_filename("x", TargetOs::Windows), "x.dll");
}

#[test]
fn artifact_path_is_under_the_isolated_target() {
    assert_eq!(
        artifact_path("target", TargetOs::Linux),
        "target/kauma_hot_reload_target/target/debug/libkauma_hot_reload_shared_lib.so"
    );
    assert_eq!(
        artifact_path("/tmp/out/", TargetOs::Windows),
        "/tmp/out/kauma_hot_reload_target/target/debug/kauma_hot_reload_shared_lib.dll"
    );
}

#[test]
fn join_path_puts_one_separator() {
    assert_eq!(join_path("a", "b"), "a/b");
    assert_eq!(join_path("a/", "b"), "a/b");
    assert_eq!(join_path("", "b"), "b");
}

#[test]
fn target_dir_defaults_to_target() {
    assert_eq!(cargo_target_dir(None), "target");
    assert_eq!(cargo_target_dir(Some("/build".to_string())), "/build");
}

#[test]
fn target_dirs_are_distinct_parents() {
    let sources = vec![
        "/p/src/main.rs".to_string(),
        "/p/src/lib.rs".to_string(),
        "/p/examples/demo.rs".to_string(),
        "/".to_string(),
    ];
    let dirs = get_cargo_target_dirs(&sources);
    assert_eq!(dirs, vec!["/p/src".to_string(), "/p/examples".to_string()]);
}

#[test]
fn rebuild_paths_of_a_project() {
    let p = RebuildPaths::new("target", "/work/host");
    assert_eq!(p.build_dir, "target/kauma_hot_reload_target");
    assert_eq!(p.source_link, "target/kauma_hot_reload_target/src");
    assert_eq!(p.host_sources, "/work/host/src");
    assert_eq!(p.host_manifest, "/work/host/Cargo.toml");
    assert_eq!(p.build_manifest, "target/kauma_hot_reload_target/Cargo.toml");
}

fn drive_to_build(s: &mut RebuildSession) {
    assert!(matches!(s.step(RebuildEvent::Done), RebuildAction::CheckBuildDir(p) if p == "t/kauma_hot_reload_target"));
    assert!(matches!(s.step(RebuildEvent::Exists(true)), RebuildAction::CheckSourceLink(_)));
    assert!(matches!(s.step(RebuildEvent::Exists(true)), RebuildAction::RemoveSourceLink(p) if p == "t/kauma_hot_reload_target/src"));
    assert!(matches!(s.step(RebuildEvent::Done), RebuildAction::LinkSources { target, link } if target == "/h/src" && link == "t/kauma_hot_reload_target/src"));
    assert!(matches!(s.step(RebuildEvent::Done), RebuildAction::CopyManifest { from, to } if from == "/h/Cargo.toml" && to == "t/kauma_hot_reload_target/Cargo.toml"));
    assert!(matches!(s.step(RebuildEvent::Done), RebuildAction::ReadManifest(_)));
    match s.step(RebuildEvent::Text(HOST.to_string())) {
        RebuildAction::WriteManifest { path, text } => {
            assert_eq!(path, "t/kauma_hot_reload_target/Cargo.toml");
            assert!(text.contains("kauma_hot_reload_shared_lib"));
            assert!(text.contains("../../local"));
        }
        _ => panic!("expected the transformed descriptor to be written"),
    }
    match s.step(RebuildEvent::Done) {
        RebuildAction::RunBuild { dir, env_var, env_value } => {
            assert_eq!(dir, "t/kauma_hot_reload_target");
            assert_eq!(env_var, KAUMA_ENV_VAR);
            assert_eq!(env_value, "true");
        }
        _ => panic!("expected the build to run"),
    }
}

#[test]
fn rebuild_session_runs_every_step() {
    let mut s = RebuildSession::new("t", "/h");
    drive_to_build(&mut s);
    assert!(matches!(s.step(RebuildEvent::Exited(true)), RebuildAction::Finish(Ok(()))));
    assert!(s.is_finished());
}

#[test]
fn rebuild_creates_a_missing_build_dir_and_links() {
    let mut s = RebuildSession::new("t", "/h");
    s.step(RebuildEvent::Done);
    assert!(matches!(s.step(RebuildEvent::Exists(false)), RebuildAction::CreateBuildDir(p) if p == "t/kauma_hot_reload_target"));
    assert!(matches!(s.step(RebuildEvent::Done), RebuildAction::CheckSourceLink(_)));
    assert!(matches!(s.step(RebuildEvent::Exists(false)), RebuildAction::LinkSources { .. }));
    assert_eq!(s.stage, RebuildStage::Linking);
}

#[test]
fn failed_build_is_reported_and_nothing_follows() {
    let mut s = RebuildSession::new("t", "/h");
    drive_to_build(&mut s);
    let a = s.step(RebuildEvent::Exited(false));
    assert!(matches!(a, RebuildAction::Finish(Err(BuildError::BuildFailed))));
    assert!(s.is_finished());
    assert!(matches!(s.step(RebuildEvent::Done), RebuildAction::Finish(Err(BuildError::OutOfOrder))));
}

#[test]
fn malformed_descriptor_ends_the_rebuild() {
    let mut s = RebuildSession::new("t", "/h");
    for ev in [RebuildEvent::Done, RebuildEvent::Exists(true), RebuildEvent::Exists(false), RebuildEvent::Done, RebuildEvent::Done] {
        s.step(ev);
    }
    assert_eq!(s.stage, RebuildStage::Reading);
    let a = s.step(RebuildEvent::Text("[package".to_string()));
    assert!(matches!(a, RebuildAction::Finish(Err(BuildError::Configuration(_)))));
}

#[test]
fn io_failure_ends_the_rebuild() {
    let mut s = RebuildSession::new("t", "/h");
    s.step(RebuildEvent::Done);
    let a = s.step(RebuildEvent::Failed("denied".to_string()));
    assert!(matches!(a, RebuildAction::Finish(Err(BuildError::Io(m))) if m == "denied"));
}

#[test]
fn unexpected_event_is_out_of_order() {
    let mut s = RebuildSession::new("t", "/h");
    s.step(RebuildEvent::Done);
    assert!(matches!(s.step(RebuildEvent::Exited(true)), RebuildAction::Finish(Err(BuildError::OutOfOrder))));
}

#[test]
fn build_errors_describe_themselves() {
    assert_eq!(BuildError::BuildFailed.describe(), "the build tool exited unsuccessfully");
    assert_eq!(BuildError::Io("x".to_string()).describe(), "filesystem or process failure: x");
}

fn watching() -> Watcher {
    let mut w = Watcher::new();
    assert_eq!(w.handle(WatcherEvent::Launched).command, WatcherCommand::Rebuild);
    let r = w.handle(WatcherEvent::Rebuilt(Ok(())));
    assert!(r.report.is_none());
    assert_eq!(r.command, WatcherCommand::Subscribe);
    assert_eq!(w.handle(WatcherEvent::Subscribed(Ok(()))).command, WatcherCommand::Wait);
    assert_eq!(w.phase, WatcherPhase::Watching);
    w
}

#[test]
fn two_rapid_edits_make_one_rebuild() {
    let mut w = watching();
    // Two edits 100 ms apart fall in one 500 ms settle window: one batch of two events.
    let r = w.handle(WatcherEvent::Changes(Ok(2)));
    assert_eq!(r.command, WatcherCommand::Rebuild);
    let r = w.handle(WatcherEvent::Rebuilt(Ok(())));
    assert_eq!(r.command, WatcherCommand::Wait);
    assert_eq!(w.phase, WatcherPhase::Watching);
}

#[test]
fn batches_of_any_size_make_one_rebuild_each() {
    let mut w = watching();
    let mut rebuilds = 0;
    for n in [1usize, 7, 40] {
        if w.handle(WatcherEvent::Changes(Ok(n))).command == WatcherCommand::Rebuild {
            rebuilds += 1;
        }
        if w.handle(WatcherEvent::Rebuilt(Ok(()))).command == WatcherCommand::Rebuild {
            rebuilds += 1;
        }
    }
    assert_eq!(rebuilds, 3);
}

#[test]
fn changes_during_a_rebuild_make_one_more() {
    let mut w = watching();
    w.handle(WatcherEvent::Changes(Ok(1)));
    assert_eq!(w.handle(WatcherEvent::Changes(Ok(3))).command, WatcherCommand::Wait);
    assert_eq!(w.handle(WatcherEvent::Changes(Ok(1))).command, WatcherCommand::Wait);
    assert_eq!(w.handle(WatcherEvent::Rebuilt(Ok(()))).command, WatcherCommand::Rebuild);
    assert_eq!(w.handle(WatcherEvent::Rebuilt(Ok(()))).command, WatcherCommand::Wait);
}

#[test]
fn failed_rebuild_is_reported_and_watching_goes_on() {
    let mut w = watching();
    w.handle(WatcherEvent::Changes(Ok(1)));
    let r = w.handle(WatcherEvent::Rebuilt(Err(BuildError::BuildFailed)));
    assert_eq!(
        r.report.as_deref(),
        Some("Couldn't rebuild hot-reloaded functions: the build tool exited unsuccessfully")
    );
    assert_eq!(r.command, WatcherCommand::Wait);
    assert_eq!(w.phase, WatcherPhase::Watching);
}

#[test]
fn unwatchable_path_stops_the_watcher() {
    let mut w = Watcher::new();
    w.handle(WatcherEvent::Launched);
    w.handle(WatcherEvent::Rebuilt(Ok(())));
    let r = w.handle(WatcherEvent::Subscribed(Err("no such path".to_string())));
    assert_eq!(r.report.as_deref(), Some("Error watching for code changes: no such path"));
    assert_eq!(r.command, WatcherCommand::Stop);
    assert_eq!(w.handle(WatcherEvent::Changes(Ok(1))).command, WatcherCommand::Stop);
}

#[test]
fn watch_errors_are_reported() {
    let mut w = watching();
    let r = w.handle(WatcherEvent::Changes(Err("overflow".to_string())));
    assert_eq!(r.report.as_deref(), Some("Error watching for code changes: overflow"));
    assert_eq!(r.command, WatcherCommand::Wait);
}

#[test]
fn activation_starts_the_watcher_once() {
    let mut flag = ActivationFlag::new();
    assert!(!flag.is_started());
    let starts = (0..10).filter(|_| flag.activate()).count();
    assert_eq!(starts, 1);
    assert!(flag.is_started());
}

#[test]
fn demonstration_bodies_count_iterations() {
    let mut state = State { counter: 0 };
    do_stuff(&mut state);
    do_stuff2(&mut state);
    assert_eq!(state.counter, 2);
}
