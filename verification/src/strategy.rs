//! The choice among the ways of obtaining the compiled library.

use vstd::prelude::*;
use crate::config::{BuildSettings, SettingsModel};

verus! {

/// A way of obtaining the compiled library.
#[derive(Clone, Copy, Debug, PartialEq, Eq, Structural)]
pub enum Strategy {
    /// Only the declarations are produced; no library is needed.
    BindingsOnly,
    /// A prebuilt WebAssembly bundle is fetched, with a build from the sources
    /// as the fallback.
    WasmPrebuilt,
    /// The library is built from its sources.
    SourceBuild,
    /// A library that the user compiled is linked as it is.
    PrecompiledLink,
}

impl Strategy {
    /// Whether the C++ runtime is linked once the library is there. Only the
    /// native strategies do so: a WebAssembly build carries its runtime.
    pub open spec fn links_cpp_runtime(self) -> bool {
        self == Strategy::SourceBuild || self == Strategy::PrecompiledLink
    }

    /// Whether the C++ runtime is linked once the library is there.
    pub fn needs_cpp_runtime(self) -> (needed: bool)
        ensures
            needed == self.links_cpp_runtime(),
    {
        match self {
            Strategy::SourceBuild => true,
            Strategy::PrecompiledLink => true,
            Strategy::BindingsOnly => false,
            Strategy::WasmPrebuilt => false,
        }
    }
}

/// The strategy for `settings`: the first of these that applies. A build for
/// declarations only; a WebAssembly target; a forced build from the sources; a
/// precompiled library directory; and, failing all, a build from the sources.
pub open spec fn strategy_for(settings: SettingsModel) -> Strategy {
    if settings.docs_only {
        Strategy::BindingsOnly
    } else if settings.target.is_wasm() {
        Strategy::WasmPrebuilt
    } else if settings.config.force_source {
        Strategy::SourceBuild
    } else if settings.config.lib_dir is Some {
        Strategy::PrecompiledLink
    } else {
        Strategy::SourceBuild
    }
}

/// Chooses the strategy for `settings`.
pub fn select_strategy(settings: &BuildSettings) -> (strategy: Strategy)
    ensures
        strategy == strategy_for(settings@),
{
    if settings.docs_only {
        Strategy::BindingsOnly
    } else if settings.target.is_wasm() {
        Strategy::WasmPrebuilt
    } else if settings.config.force_source {
        Strategy::SourceBuild
    } else if settings.config.lib_dir.is_some() {
        Strategy::PrecompiledLink
    } else {
        Strategy::SourceBuild
    }
}

/// A WebAssembly target never has the C++ runtime linked, whatever else is set.
pub proof fn law_wasm_never_links_cpp_runtime(settings: SettingsModel)
    requires
        settings.target.is_wasm(),
    ensures
        !strategy_for(settings).links_cpp_runtime(),
{
}

/// With a precompiled library directory and no forced build from the sources,
/// a native target that wants more than declarations links that directory.
pub proof fn law_precompiled_directory_is_linked(settings: SettingsModel)
    requires
        settings.config.lib_dir is Some,
        !settings.config.force_source,
        !settings.target.is_wasm(),
        !settings.docs_only,
    ensures
        strategy_for(settings) == Strategy::PrecompiledLink,
{
}

} // verus!
