//! The build orchestrator: one rebuild as a sequence of filesystem and
//! process steps, each decided here from the outcome of the one before.
//!
//! The caller performs each [`RebuildAction`] and reports what happened as a
//! [`RebuildEvent`]; [`RebuildSession::step`] names the next action, until a
//! `Finish` action carries the rebuild's result.
use vstd::prelude::*;

use crate::layout::{artifact_path_of, rebuild_paths_of, RebuildPaths, RebuildPathsView, TargetOs};
use crate::manifest::{
    isolated_manifest, toml_document, toml_rendering, transform_manifest, ManifestError,
};
use crate::{KAUMA_ENV_VAR, KAUMA_HOT_BUILD_DIR};

verus! {

/// Why a rebuild stopped.
pub enum BuildError {
    /// A filesystem step failed, or the build tool could not be started.
    Io(String),
    /// The host's build descriptor could not be transformed.
    Configuration(ManifestError),
    /// The build tool ran and exited unsuccessfully.
    BuildFailed,
    /// An event came that the current step cannot have produced.
    OutOfOrder,
}

/// The text that reports `e`.
pub open spec fn build_error_text(e: BuildError) -> Seq<char> {
    match e {
        BuildError::Io(m) => "filesystem or process failure: "@ + m@,
        BuildError::Configuration(ManifestError::Unparsable(m)) => "the build descriptor is not valid TOML: "@
            + m@,
        BuildError::Configuration(ManifestError::Unrenderable(m)) => "the isolated build descriptor could not be written: "@
            + m@,
        BuildError::BuildFailed => "the build tool exited unsuccessfully"@,
        BuildError::OutOfOrder => "the rebuild steps were reported out of order"@,
    }
}

impl BuildError {
    /// A sentence that reports the error.
    pub fn describe(&self) -> (r: String)
        ensures
            r@ == build_error_text(*self),
    {
        match self {
            BuildError::Io(m) => {
                let mut r = String::from_str("filesystem or process failure: ");
                r.append(m.as_str());
                r
            },
            BuildError::Configuration(ManifestError::Unparsable(m)) => {
                let mut r = String::from_str("the build descriptor is not valid TOML: ");
                r.append(m.as_str());
                r
            },
            BuildError::Configuration(ManifestError::Unrenderable(m)) => {
                let mut r = String::from_str("the isolated build descriptor could not be written: ");
                r.append(m.as_str());
                r
            },
            BuildError::BuildFailed => String::from_str("the build tool exited unsuccessfully"),
            BuildError::OutOfOrder => String::from_str("the rebuild steps were reported out of order"),
        }
    }
}

/// What the caller observed after performing an action.
pub enum RebuildEvent {
    /// The checked path exists (or not).
    Exists(bool),
    /// The action completed.
    Done,
    /// The file that was to be read holds this text.
    Text(String),
    /// The build tool exited, successfully or not.
    Exited(bool),
    /// The action failed with this message.
    Failed(String),
}

/// The next thing to do.
pub enum RebuildAction {
    /// Tell whether the isolated build directory exists.
    CheckBuildDir(String),
    /// Create the isolated build directory.
    CreateBuildDir(String),
    /// Tell whether anything, a dangling link included, stands at the source link's path.
    CheckSourceLink(String),
    /// Remove the stale source link.
    RemoveSourceLink(String),
    /// Create a symbolic link at `link` pointing at `target`.
    LinkSources { target: String, link: String },
    /// Copy the host's descriptor into the build directory.
    CopyManifest { from: String, to: String },
    /// Read this file and report its text.
    ReadManifest(String),
    /// Write `text` to `path`, replacing what is there.
    WriteManifest { path: String, text: String },
    /// Run the build tool in `dir` with the variable `env_var` set to `env_value`.
    RunBuild { dir: String, env_var: String, env_value: String },
    /// The rebuild is over, with this result.
    Finish(Result<(), BuildError>),
}

/// How a rebuild ended, as the contracts see it.
pub enum Outcome {
    Built,
    Io(Seq<char>),
    Configuration,
    BuildFailed,
    OutOfOrder,
}

/// The meaning of a [`RebuildAction`].
pub enum Step {
    CheckBuildDir(Seq<char>),
    CreateBuildDir(Seq<char>),
    CheckSourceLink(Seq<char>),
    RemoveSourceLink(Seq<char>),
    LinkSources(Seq<char>, Seq<char>),
    CopyManifest(Seq<char>, Seq<char>),
    ReadManifest(Seq<char>),
    WriteManifest(Seq<char>, Seq<char>),
    RunBuild(Seq<char>, Seq<char>, Seq<char>),
    Finish(Outcome),
}

/// The meaning of a [`RebuildEvent`].
pub enum Signal {
    Exists(bool),
    Done,
    Text(Seq<char>),
    Exited(bool),
    Failed(Seq<char>),
}

impl View for RebuildEvent {
    type V = Signal;

    open spec fn view(&self) -> Signal {
        match self {
            RebuildEvent::Exists(b) => Signal::Exists(*b),
            RebuildEvent::Done => Signal::Done,
            RebuildEvent::Text(t) => Signal::Text(t@),
            RebuildEvent::Exited(ok) => Signal::Exited(*ok),
            RebuildEvent::Failed(m) => Signal::Failed(m@),
        }
    }
}

pub open spec fn outcome_of(r: Result<(), BuildError>) -> Outcome {
    match r {
        Ok(()) => Outcome::Built,
        Err(BuildError::Io(m)) => Outcome::Io(m@),
        Err(BuildError::Configuration(_)) => Outcome::Configuration,
        Err(BuildError::BuildFailed) => Outcome::BuildFailed,
        Err(BuildError::OutOfOrder) => Outcome::OutOfOrder,
    }
}

impl View for RebuildAction {
    type V = Step;

    open spec fn view(&self) -> Step {
        match self {
            RebuildAction::CheckBuildDir(p) => Step::CheckBuildDir(p@),
            RebuildAction::CreateBuildDir(p) => Step::CreateBuildDir(p@),
            RebuildAction::CheckSourceLink(p) => Step::CheckSourceLink(p@),
            RebuildAction::RemoveSourceLink(p) => Step::RemoveSourceLink(p@),
            RebuildAction::LinkSources { target, link } => Step::LinkSources(target@, link@),
            RebuildAction::CopyManifest { from, to } => Step::CopyManifest(from@, to@),
            RebuildAction::ReadManifest(p) => Step::ReadManifest(p@),
            RebuildAction::WriteManifest { path, text } => Step::WriteManifest(path@, text@),
            RebuildAction::RunBuild { dir, env_var, env_value } => Step::RunBuild(
                dir@,
                env_var@,
                env_value@,
            ),
            RebuildAction::Finish(r) => Step::Finish(outcome_of(*r)),
        }
    }
}

/// Where a rebuild stands: the action last handed out.
#[derive(Clone, Copy, Debug, PartialEq, Eq, Structural)]
pub enum RebuildStage {
    Start,
    CheckingDir,
    CreatingDir,
    CheckingLink,
    RemovingLink,
    Linking,
    Copying,
    Reading,
    Writing,
    Building,
    Finished,
}

/// The isolated descriptor's text for the host descriptor's text, or `None`
/// where the transformation fails.
pub open spec fn manifest_output(text: Seq<char>) -> Option<Seq<char>> {
    match toml_document(text) {
        Some(doc) => toml_rendering(isolated_manifest(doc)),
        None => None,
    }
}

/// The rebuild protocol: from a stage and what the last action produced, the
/// next stage and action.
pub open spec fn rebuild_next(stage: RebuildStage, p: RebuildPathsView, ev: Signal) -> (RebuildStage, Step) {
    match (stage, ev) {
        (RebuildStage::Start, _) => (RebuildStage::CheckingDir, Step::CheckBuildDir(p.build_dir)),
        (RebuildStage::Finished, _) => (RebuildStage::Finished, Step::Finish(Outcome::OutOfOrder)),
        (_, Signal::Failed(m)) => (RebuildStage::Finished, Step::Finish(Outcome::Io(m))),
        (RebuildStage::CheckingDir, Signal::Exists(true)) => (
            RebuildStage::CheckingLink,
            Step::CheckSourceLink(p.source_link),
        ),
        (RebuildStage::CheckingDir, Signal::Exists(false)) => (
            RebuildStage::CreatingDir,
            Step::CreateBuildDir(p.build_dir),
        ),
        (RebuildStage::CreatingDir, Signal::Done) => (
            RebuildStage::CheckingLink,
            Step::CheckSourceLink(p.source_link),
        ),
        (RebuildStage::CheckingLink, Signal::Exists(true)) => (
            RebuildStage::RemovingLink,
            Step::RemoveSourceLink(p.source_link),
        ),
        (RebuildStage::CheckingLink, Signal::Exists(false)) => (
            RebuildStage::Linking,
            Step::LinkSources(p.host_sources, p.source_link),
        ),
        (RebuildStage::RemovingLink, Signal::Done) => (
            RebuildStage::Linking,
            Step::LinkSources(p.host_sources, p.source_link),
        ),
        (RebuildStage::Linking, Signal::Done) => (
            RebuildStage::Copying,
            Step::CopyManifest(p.host_manifest, p.build_manifest),
        ),
        (RebuildStage::Copying, Signal::Done) => (
            RebuildStage::Reading,
            Step::ReadManifest(p.build_manifest),
        ),
        (RebuildStage::Reading, Signal::Text(t)) => match manifest_output(t) {
            Some(out) => (RebuildStage::Writing, Step::WriteManifest(p.build_manifest, out)),
            None => (RebuildStage::Finished, Step::Finish(Outcome::Configuration)),
        },
        (RebuildStage::Writing, Signal::Done) => (
            RebuildStage::Building,
            Step::RunBuild(p.build_dir, KAUMA_ENV_VAR@, "true"@),
        ),
        (RebuildStage::Building, Signal::Exited(ok)) => (
            RebuildStage::Finished,
            Step::Finish(
                if ok {
                    Outcome::Built
                } else {
                    Outcome::BuildFailed
                },
            ),
        ),
        _ => (RebuildStage::Finished, Step::Finish(Outcome::OutOfOrder)),
    }
}

/// One rebuild in progress.
pub struct RebuildSession {
    pub stage: RebuildStage,
    pub paths: RebuildPaths,
}

impl RebuildSession {
    /// A rebuild of the project at `project_root` whose build output root is
    /// `target_dir`, not yet begun.
    pub fn new(target_dir: &str, project_root: &str) -> (r: RebuildSession)
        ensures
            r.stage == RebuildStage::Start,
            r.paths@ == rebuild_paths_of(target_dir@, project_root@),
    {
        RebuildSession { stage: RebuildStage::Start, paths: RebuildPaths::new(target_dir, project_root) }
    }

    /// Whether the rebuild is over.
    pub fn is_finished(&self) -> (r: bool)
        ensures
            r == (self.stage == RebuildStage::Finished),
    {
        self.stage == RebuildStage::Finished
    }

    fn finish(&mut self, r: Result<(), BuildError>) -> (a: RebuildAction)
        ensures
            final(self).stage == RebuildStage::Finished,
            final(self).paths == old(self).paths,
            a@ == Step::Finish(outcome_of(r)),
    {
        self.stage = RebuildStage::Finished;
        RebuildAction::Finish(r)
    }

    fn advance(&mut self, stage: RebuildStage, a: RebuildAction) -> (r: RebuildAction)
        ensures
            final(self).stage == stage,
            final(self).paths == old(self).paths,
            r == a,
    {
        self.stage = stage;
        a
    }

    /// The action that follows `event`, the outcome of the last action (any
    /// event begins a rebuild that has not begun).
    pub fn step(&mut self, event: RebuildEvent) -> (a: RebuildAction)
        ensures
            (final(self).stage, a@) == rebuild_next(old(self).stage, old(self).paths@, event@),
            final(self).paths == old(self).paths,
    {
        match (self.stage, event) {
            (RebuildStage::Start, _) => {
                let p = self.paths.build_dir.clone();
                self.advance(RebuildStage::CheckingDir, RebuildAction::CheckBuildDir(p))
            },
            (RebuildStage::Finished, _) => self.finish(Err(BuildError::OutOfOrder)),
            (_, RebuildEvent::Failed(m)) => self.finish(Err(BuildError::Io(m))),
            (RebuildStage::CheckingDir, RebuildEvent::Exists(true)) => {
                let p = self.paths.source_link.clone();
                self.advance(RebuildStage::CheckingLink, RebuildAction::CheckSourceLink(p))
            },
            (RebuildStage::CheckingDir, RebuildEvent::Exists(false)) => {
                let p = self.paths.build_dir.clone();
                self.advance(RebuildStage::CreatingDir, RebuildAction::CreateBuildDir(p))
            },
            (RebuildStage::CreatingDir, RebuildEvent::Done) => {
                let p = self.paths.source_link.clone();
                self.advance(RebuildStage::CheckingLink, RebuildAction::CheckSourceLink(p))
            },
            (RebuildStage::CheckingLink, RebuildEvent::Exists(true)) => {
                let p = self.paths.source_link.clone();
                self.advance(RebuildStage::RemovingLink, RebuildAction::RemoveSourceLink(p))
            },
            (RebuildStage::CheckingLink, RebuildEvent::Exists(false)) => {
                let target = self.paths.host_sources.clone();
                let link = self.paths.source_link.clone();
                self.advance(RebuildStage::Linking, RebuildAction::LinkSources { target, link })
            },
            (RebuildStage::RemovingLink, RebuildEvent::Done) => {
                let target = self.paths.host_sources.clone();
                let link = self.paths.source_link.clone();
                self.advance(RebuildStage::Linking, RebuildAction::LinkSources { target, link })
            },
            (RebuildStage::Linking, RebuildEvent::Done) => {
                let from = self.paths.host_manifest.clone();
                let to = self.paths.build_manifest.clone();
                self.advance(RebuildStage::Copying, RebuildAction::CopyManifest { from, to })
            },
            (RebuildStage::Copying, RebuildEvent::Done) => {
                let p = self.paths.build_manifest.clone();
                self.advance(RebuildStage::Reading, RebuildAction::ReadManifest(p))
            },
            (RebuildStage::Reading, RebuildEvent::Text(t)) => {
                match transform_manifest(t.as_str()) {
                    Ok(text) => {
                        let path = self.paths.build_manifest.clone();
                        self.advance(RebuildStage::Writing, RebuildAction::WriteManifest { path, text })
                    },
                    Err(e) => self.finish(Err(BuildError::Configuration(e))),
                }
            },
            (RebuildStage::Writing, RebuildEvent::Done) => {
                let dir = self.paths.build_dir.clone();
                let env_var = String::from_str(KAUMA_ENV_VAR);
                let env_value = String::from_str("true");
                self.advance(RebuildStage::Building, RebuildAction::RunBuild { dir, env_var, env_value })
            },
            (RebuildStage::Building, RebuildEvent::Exited(ok)) => {
                if ok {
                    self.finish(Ok(()))
                } else {
                    self.finish(Err(BuildError::BuildFailed))
                }
            },
            _ => self.finish(Err(BuildError::OutOfOrder)),
        }
    }
}

/// The path that a step creates, replaces or removes, if any.
pub open spec fn written_path(s: Step) -> Option<Seq<char>> {
    match s {
        Step::CreateBuildDir(p) => Some(p),
        Step::RemoveSourceLink(p) => Some(p),
        Step::LinkSources(_, link) => Some(link),
        Step::CopyManifest(_, to) => Some(to),
        Step::WriteManifest(p, _) => Some(p),
        _ => None,
    }
}

proof fn lemma_joined_after_name(base: Seq<char>, part: Seq<char>)
    requires
        base.len() > 0,
        base.last() != '/',
    ensures
        crate::layout::joined(base, part) == base + "/"@ + part,
        crate::layout::joined(base, part).len() == base.len() + 1 + part.len(),
        part.len() > 0 ==> crate::layout::joined(base, part).last() == part.last(),
{
    reveal_strlit("/");
}

proof fn lemma_build_dir_shape(target_dir: Seq<char>)
    ensures
        crate::layout::build_dir_of(target_dir).len() > 0,
        crate::layout::build_dir_of(target_dir).last() == 't',
{
    reveal_strlit("kauma_hot_reload_target");
    reveal_strlit("/");
    let b = crate::layout::build_dir_of(target_dir);
    let x = KAUMA_HOT_BUILD_DIR@;
    if target_dir.len() == 0 {
    } else if target_dir.last() == '/' {
        assert(b == target_dir + x);
        assert(b.last() == x.last());
    } else {
        assert(b == target_dir + "/"@ + x);
        assert(b.last() == x.last());
    }
}

/// No step of a rebuild creates, replaces or removes the artifact's path: an
/// artifact from an earlier build stays where call sites find it, whatever
/// this rebuild's outcome.
pub proof fn rebuild_leaves_artifact_alone(
    target_dir: Seq<char>,
    project_root: Seq<char>,
    os: TargetOs,
    stage: RebuildStage,
    ev: Signal,
)
    ensures
        written_path(rebuild_next(stage, rebuild_paths_of(target_dir, project_root), ev).1) matches Some(w)
            ==> w != artifact_path_of(target_dir, os),
{
    reveal_strlit("src");
    reveal_strlit("Cargo.toml");
    reveal_strlit("target");
    reveal_strlit("debug");
    let b = crate::layout::build_dir_of(target_dir);
    lemma_build_dir_shape(target_dir);
    lemma_joined_after_name(b, "src"@);
    lemma_joined_after_name(b, "Cargo.toml"@);
    lemma_joined_after_name(b, "target"@);
    let t = crate::layout::joined(b, "target"@);
    lemma_joined_after_name(t, "debug"@);
    let d = crate::layout::joined(t, "debug"@);
    let f = crate::layout::shared_library_filename(crate::KAUMA_SHARED_LIB_NAME@, os);
    lemma_joined_after_name(d, f);
    assert(artifact_path_of(target_dir, os).len() > b.len() + 11);
}

} // verus!
