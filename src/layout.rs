//! Where things live on disk: the isolated build directory, the files the
//! rebuild writes, and the artifact that call sites load.
use vstd::prelude::*;

use crate::{KAUMA_HOT_BUILD_DIR, KAUMA_SHARED_LIB_NAME};

verus! {

/// The operating systems whose loadable-library naming is known.
#[derive(Clone, Copy, Debug, PartialEq, Eq, Structural)]
pub enum TargetOs {
    Linux,
    MacOs,
    Windows,
}

/// The file name the host OS gives a loadable library called `base`.
pub open spec fn shared_library_filename(base: Seq<char>, os: TargetOs) -> Seq<char> {
    match os {
        TargetOs::Linux => "lib"@ + base + ".so"@,
        TargetOs::MacOs => "lib"@ + base + ".dylib"@,
        TargetOs::Windows => base + ".dll"@,
    }
}

/// `part` appended to the directory `base`.
pub open spec fn joined(base: Seq<char>, part: Seq<char>) -> Seq<char> {
    if base.len() == 0 {
        part
    } else if base.last() == '/' {
        base + part
    } else {
        base + "/"@ + part
    }
}

/// The isolated build directory under the build output root.
pub open spec fn build_dir_of(target_dir: Seq<char>) -> Seq<char> {
    joined(target_dir, KAUMA_HOT_BUILD_DIR@)
}

/// The artifact's path: the sole meeting point of the rebuild and the call sites.
pub open spec fn artifact_path_of(target_dir: Seq<char>, os: TargetOs) -> Seq<char> {
    joined(
        joined(joined(build_dir_of(target_dir), "target"@), "debug"@),
        shared_library_filename(KAUMA_SHARED_LIB_NAME@, os),
    )
}

/// The file name of the loadable library `base_name` on `os`.
pub fn guess_shared_library_filename(base_name: &str, os: TargetOs) -> (r: String)
    ensures
        r@ == shared_library_filename(base_name@, os),
{
    match os {
        TargetOs::Linux => {
            let mut r = String::from_str("lib");
            r.append(base_name);
            r.append(".so");
            r
        },
        TargetOs::MacOs => {
            let mut r = String::from_str("lib");
            r.append(base_name);
            r.append(".dylib");
            r
        },
        TargetOs::Windows => {
            let mut r = String::from_str(base_name);
            r.append(".dll");
            r
        },
    }
}

/// `part` appended to the directory `base`, with one separator between them.
pub fn join_path(base: &str, part: &str) -> (r: String)
    ensures
        r@ == joined(base@, part@),
{
    let n = base.unicode_len();
    if n == 0 {
        String::from_str(part)
    } else if base.get_char(n - 1) == '/' {
        let mut r = String::from_str(base);
        r.append(part);
        r
    } else {
        let mut r = String::from_str(base);
        r.append("/");
        r.append(part);
        r
    }
}

/// The build output root: the value of `CARGO_TARGET_DIR` where it is set,
/// else `target`.
pub fn cargo_target_dir(configured: Option<String>) -> (r: String)
    ensures
        match configured {
            Some(dir) => r@ == dir@,
            None => r@ == "target"@,
        },
{
    match configured {
        Some(dir) => dir,
        None => String::from_str("target"),
    }
}

/// The path at which call sites look for the artifact.
pub fn artifact_path(target_dir: &str, os: TargetOs) -> (r: String)
    ensures
        r@ == artifact_path_of(target_dir@, os),
{
    let build_dir = join_path(target_dir, KAUMA_HOT_BUILD_DIR);
    let nested = join_path(build_dir.as_str(), "target");
    let debug = join_path(nested.as_str(), "debug");
    let file = guess_shared_library_filename(KAUMA_SHARED_LIB_NAME, os);
    join_path(debug.as_str(), file.as_str())
}

/// The paths one rebuild works with.
pub struct RebuildPaths {
    /// The isolated build directory.
    pub build_dir: String,
    /// The link, inside it, to the host's sources.
    pub source_link: String,
    /// The host's source root, which the link points at.
    pub host_sources: String,
    /// The host's build descriptor.
    pub host_manifest: String,
    /// The isolated build descriptor.
    pub build_manifest: String,
}

/// The paths of a rebuild as sequences of characters.
pub struct RebuildPathsView {
    pub build_dir: Seq<char>,
    pub source_link: Seq<char>,
    pub host_sources: Seq<char>,
    pub host_manifest: Seq<char>,
    pub build_manifest: Seq<char>,
}

impl View for RebuildPaths {
    type V = RebuildPathsView;

    open spec fn view(&self) -> RebuildPathsView {
        RebuildPathsView {
            build_dir: self.build_dir@,
            source_link: self.source_link@,
            host_sources: self.host_sources@,
            host_manifest: self.host_manifest@,
            build_manifest: self.build_manifest@,
        }
    }
}

/// The paths of a rebuild of the project at `project_root` whose build output
/// root is `target_dir`.
pub open spec fn rebuild_paths_of(target_dir: Seq<char>, project_root: Seq<char>) -> RebuildPathsView {
    RebuildPathsView {
        build_dir: build_dir_of(target_dir),
        source_link: joined(build_dir_of(target_dir), "src"@),
        host_sources: joined(project_root, "src"@),
        host_manifest: joined(project_root, "Cargo.toml"@),
        build_manifest: joined(build_dir_of(target_dir), "Cargo.toml"@),
    }
}

impl RebuildPaths {
    /// The paths of a rebuild of the project at `project_root` whose build
    /// output root is `target_dir`.
    pub fn new(target_dir: &str, project_root: &str) -> (r: RebuildPaths)
        ensures
            r@ == rebuild_paths_of(target_dir@, project_root@),
    {
        let build_dir = join_path(target_dir, KAUMA_HOT_BUILD_DIR);
        let source_link = join_path(build_dir.as_str(), "src");
        let host_sources = join_path(project_root, "src");
        let host_manifest = join_path(project_root, "Cargo.toml");
        let build_manifest = join_path(build_dir.as_str(), "Cargo.toml");
        RebuildPaths { build_dir, source_link, host_sources, host_manifest, build_manifest }
    }
}

/// What camino's `Utf8Path::parent` gives for a path: the path without its
/// last component, or `None` for a root or an empty path.
pub uninterp spec fn utf8_parent(path: Seq<char>) -> Option<Seq<char>>;

/// Relies on `camino::Utf8Path::parent` (re-exported by cargo_metadata).
#[verifier::external_body]
fn parent_dir(path: &str) -> (r: Option<String>)
    ensures
        match r {
            Some(p) => utf8_parent(path@) == Some(p@),
            None => utf8_parent(path@) is None,
        },
{
    cargo_metadata::camino::Utf8Path::new(path).parent().map(|p| p.as_str().to_string())
}

/// Whether `dirs` holds a string equal to `d`.
fn holds_dir(dirs: &Vec<String>, d: &String) -> (r: bool)
    ensures
        r <==> listed(dirs@, d@),
{
    let mut i: usize = 0;
    while i < dirs.len()
        invariant
            i <= dirs.len(),
            forall|j: int| 0 <= j < i ==> dirs[j]@ != d@,
        decreases dirs.len() - i,
    {
        if dirs[i] == *d {
            return true;
        }
        i = i + 1;
    }
    false
}

/// `d` is the parent of one of `sources`.
pub open spec fn parent_of_some(sources: Seq<String>, d: Seq<char>) -> bool {
    exists|k: int| 0 <= k < sources.len() && utf8_parent(sources[k]@) == Some(d)
}

/// `d` is one of `dirs`.
pub open spec fn listed(dirs: Seq<String>, d: Seq<char>) -> bool {
    exists|i: int| 0 <= i < dirs.len() && dirs[i]@ == d
}

/// The directories that hold the source files of a workspace's targets, each
/// once: the parents of `target_sources`.
pub fn get_cargo_target_dirs(target_sources: &Vec<String>) -> (r: Vec<String>)
    ensures
        forall|i: int, j: int| 0 <= i < j < r.len() ==> r[i]@ != r[j]@,
        forall|i: int| 0 <= i < r.len() ==> #[trigger] parent_of_some(target_sources@, r[i]@),
        forall|k: int|
            0 <= k < target_sources.len() && (#[trigger] utf8_parent(target_sources[k]@)) is Some
                ==> listed(r@, utf8_parent(target_sources[k]@)->Some_0),
{
    let mut dirs: Vec<String> = Vec::new();
    let mut k: usize = 0;
    while k < target_sources.len()
        invariant
            k <= target_sources.len(),
            forall|i: int, j: int| 0 <= i < j < dirs.len() ==> dirs[i]@ != dirs[j]@,
            forall|i: int| 0 <= i < dirs.len() ==> #[trigger] parent_of_some(target_sources@, dirs[i]@),
            forall|m: int|
                0 <= m < k && (#[trigger] utf8_parent(target_sources[m]@)) is Some ==> listed(
                    dirs@,
                    utf8_parent(target_sources[m]@)->Some_0,
                ),
        decreases target_sources.len() - k,
    {
        if let Some(parent) = parent_dir(target_sources[k].as_str()) {
            if !holds_dir(&dirs, &parent) {
                let ghost before = dirs@;
                dirs.push(parent);
                assert(forall|i: int| 0 <= i < before.len() ==> dirs[i] == before[i]);
                assert(dirs[dirs.len() - 1]@ == utf8_parent(target_sources[k as int]@)->Some_0);
                assert(parent_of_some(target_sources@, dirs[dirs.len() - 1]@));
                assert(forall|i: int| 0 <= i < before.len() ==> dirs[i]@ == before[i]@);
            }
        }
        k = k + 1;
    }
    dirs
}

} // verus!
