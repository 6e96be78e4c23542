//! Live reloading of marked functions: the isolated build of a host project,
//! the rebuild pipeline, and the per-call choice between a freshly built
//! artifact and the compiled-in fallback.
use vstd::prelude::*;

pub mod codegen;
pub mod layout;
pub mod lifecycle;
pub mod loader;
pub mod manifest;
pub mod orchestrator;
pub mod watcher;

verus! {

/// Name of the isolated build directory under the build output root.
pub const KAUMA_HOT_BUILD_DIR: &'static str = "kauma_hot_reload_target";

/// Environment variable set while the artifact itself is being built.
pub const KAUMA_ENV_VAR: &'static str = "KAUMA_HOT_RELOAD_BUILD";

/// Package name, and so library name, of the artifact.
pub const KAUMA_SHARED_LIB_NAME: &'static str = "kauma_hot_reload_shared_lib";

/// The counter state handed to the demonstration call sites.
pub struct State {
    pub counter: usize,
}

/// The demonstration call site: one more iteration done.
pub fn do_stuff(state: &mut State)
    requires
        old(state).counter < usize::MAX,
    ensures
        final(state).counter == old(state).counter + 1,
{
    state.counter = state.counter + 1;
}

/// The demonstration's second body, as an edit might leave it: it counts the
/// same way and reports differently.
pub fn do_stuff2(state: &mut State)
    requires
        old(state).counter < usize::MAX,
    ensures
        final(state).counter == old(state).counter + 1,
{
    state.counter = state.counter + 1;
}

} // verus!
