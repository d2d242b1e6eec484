//! Building the library from its sources: where the sources are, what the
//! build system is told, and the repair of the headers that its install step
//! leaves out.

use vstd::prelude::*;
use crate::config::{BuildSettings, SettingsModel};
use crate::directive::{Directive, DirectiveModel, LIB_NAME};
use crate::error::FatalError;
use crate::path::{BuildPath, PathModel};
use crate::target::TargetModel;

verus! {

/// The build type that every build from the sources uses.
pub const PROFILE: &'static str = "Release";

/// The compiler flag that switches on 128-bit SIMD for WebAssembly.
pub const WASM_SIMD_FLAG: &'static str = "-msimd128";

/// Where the toolchain description lies below the SDK root.
pub const TOOLCHAIN_SUFFIX: &'static str =
    "/upstream/emscripten/cmake/Modules/Platform/Emscripten.cmake";

/// The sources that come with the package: `build/FastNoise2` below it.
pub open spec fn default_source_root(manifest_dir: Seq<char>) -> PathModel {
    PathModel::rooted(manifest_dir).join("build"@).join("FastNoise2"@)
}

/// The sources to build: the override where one is set, else those that come
/// with the package.
pub open spec fn source_root(settings: SettingsModel) -> PathModel {
    match settings.config.source_dir {
        Some(dir) => PathModel::rooted(dir),
        None => default_source_root(settings.manifest_dir),
    }
}

/// The directory of the library's headers below `base`.
pub open spec fn headers_root(base: PathModel) -> PathModel {
    base.join("include"@).join("FastNoise"@)
}

/// The directory of the headers that the install step leaves out.
pub open spec fn utility_root(base: PathModel) -> PathModel {
    headers_root(base).join("Utility"@)
}

/// The sources that come with the package.
pub fn default_source_path(manifest_dir: &str) -> (path: BuildPath)
    ensures
        path@ == default_source_root(manifest_dir@),
{
    BuildPath::new(manifest_dir).join("build").join("FastNoise2")
}

/// The sources to build.
pub fn source_path(settings: &BuildSettings) -> (path: BuildPath)
    ensures
        path@ == source_root(settings@),
{
    match &settings.config.source_dir {
        Some(dir) => BuildPath::new(dir.as_str()),
        None => default_source_path(settings.manifest_dir.as_str()),
    }
}

/// The directory of the library's headers below `base`.
pub fn headers_path(base: &BuildPath) -> (path: BuildPath)
    ensures
        path@ == headers_root(base@),
{
    base.join("include").join("FastNoise")
}

/// The directory of the headers that the install step leaves out.
pub fn utility_path(base: &BuildPath) -> (path: BuildPath)
    ensures
        path@ == utility_root(base@),
{
    headers_path(base).join("Utility")
}

/// One `-D` definition for the build system.
#[derive(Clone, Debug, PartialEq, Eq)]
pub struct Define {
    pub name: String,
    pub value: String,
}

impl DeepView for Define {
    type V = (Seq<char>, Seq<char>);

    open spec fn deep_view(&self) -> (Seq<char>, Seq<char>) {
        (self.name@, self.value@)
    }
}

/// The mathematical content of a [`SourceBuildPlan`].
pub struct PlanModel {
    pub source_dir: PathModel,
    pub profile: Seq<char>,
    pub defines: Seq<(Seq<char>, Seq<char>)>,
}

/// What the build system is told: the sources, the build type and the
/// definitions, in the order in which they are handed over.
#[derive(Clone, Debug, PartialEq, Eq)]
pub struct SourceBuildPlan {
    pub source_dir: BuildPath,
    pub profile: String,
    pub defines: Vec<Define>,
}

impl View for SourceBuildPlan {
    type V = PlanModel;

    open spec fn view(&self) -> PlanModel {
        PlanModel {
            source_dir: self.source_dir@,
            profile: self.profile@,
            defines: self.defines.deep_view(),
        }
    }
}

/// The definitions of every build: no tools, no tests, no utility targets, no
/// shared library, and the release flags of the target.
pub open spec fn base_defines(target: TargetModel) -> Seq<(Seq<char>, Seq<char>)> {
    seq![
        ("FASTNOISE2_TOOLS"@, "OFF"@),
        ("FASTNOISE2_TESTS"@, "OFF"@),
        ("FASTNOISE2_UTILITY"@, "OFF"@),
        ("BUILD_SHARED_LIBS"@, "OFF"@),
        ("CMAKE_CXX_FLAGS_RELEASE"@, target.release_flags()),
    ]
}

/// The definitions that a WebAssembly build adds: the SDK's toolchain
/// description, and SIMD for C and for C++.
pub open spec fn wasm_defines(sdk_root: Seq<char>) -> Seq<(Seq<char>, Seq<char>)> {
    seq![
        ("CMAKE_TOOLCHAIN_FILE"@, sdk_root + TOOLCHAIN_SUFFIX@),
        ("CMAKE_C_FLAGS"@, WASM_SIMD_FLAG@),
        ("CMAKE_CXX_FLAGS"@, WASM_SIMD_FLAG@),
    ]
}

/// What the build system is told for `settings`, or why nothing can be built:
/// a WebAssembly build needs the SDK root.
pub open spec fn plan_for(settings: SettingsModel, wasm_mode: bool) -> Result<
    PlanModel,
    FatalError,
> {
    if wasm_mode && settings.config.sdk_root is None {
        Err(FatalError::MissingSdkRoot)
    } else {
        Ok(
            PlanModel {
                source_dir: source_root(settings),
                profile: PROFILE@,
                defines: if wasm_mode {
                    base_defines(settings.target) + wasm_defines(settings.config.sdk_root->0)
                } else {
                    base_defines(settings.target)
                },
            },
        )
    }
}

fn define(name: &str, value: String) -> (d: Define)
    ensures
        d.deep_view() == (name@, value@),
{
    Define { name: name.to_owned(), value }
}

/// The toolchain description of the SDK at `sdk_root`.
pub fn toolchain_file(sdk_root: &str) -> (file: String)
    ensures
        file@ == sdk_root@ + TOOLCHAIN_SUFFIX@,
{
    let mut file = sdk_root.to_owned();
    file.append(TOOLCHAIN_SUFFIX);
    file
}

/// Plans the build of the sources. It fails exactly when `wasm_mode` is set
/// and the settings hold no SDK root.
pub fn plan_source_build(settings: &BuildSettings, wasm_mode: bool) -> (plan: Result<
    SourceBuildPlan,
    FatalError,
>)
    ensures
        match plan {
            Ok(p) => plan_for(settings@, wasm_mode) == Ok::<PlanModel, FatalError>(p@),
            Err(e) => plan_for(settings@, wasm_mode) == Err::<PlanModel, FatalError>(e),
        },
{
    let mut defines: Vec<Define> = Vec::new();
    defines.push(define("FASTNOISE2_TOOLS", "OFF".to_owned()));
    defines.push(define("FASTNOISE2_TESTS", "OFF".to_owned()));
    defines.push(define("FASTNOISE2_UTILITY", "OFF".to_owned()));
    defines.push(define("BUILD_SHARED_LIBS", "OFF".to_owned()));
    defines.push(define("CMAKE_CXX_FLAGS_RELEASE", settings.target.release_flags()));
    assert(defines.deep_view() =~= base_defines(settings@.target));
    if wasm_mode {
        match &settings.config.sdk_root {
            None => {
                return Err(FatalError::MissingSdkRoot);
            },
            Some(sdk_root) => {
                defines.push(define("CMAKE_TOOLCHAIN_FILE", toolchain_file(sdk_root.as_str())));
                defines.push(define("CMAKE_C_FLAGS", WASM_SIMD_FLAG.to_owned()));
                defines.push(define("CMAKE_CXX_FLAGS", WASM_SIMD_FLAG.to_owned()));
                assert(defines.deep_view() =~= base_defines(settings@.target) + wasm_defines(
                    sdk_root@,
                ));
            },
        }
    }
    Ok(SourceBuildPlan { source_dir: source_path(settings), profile: PROFILE.to_owned(), defines })
}

/// The directives for a library installed below `installed`: both library
/// directories are searched, and the library is linked statically.
pub open spec fn installed_links(installed: PathModel) -> Seq<DirectiveModel> {
    seq![
        DirectiveModel::LinkSearch(installed.join("lib"@)),
        DirectiveModel::LinkSearch(installed.join("lib64"@)),
        DirectiveModel::LinkStatic(LIB_NAME@),
    ]
}

/// The directives for a library installed below `installed`.
pub fn link_installed(installed: &BuildPath) -> (directives: Vec<Directive>)
    ensures
        directives.deep_view() == installed_links(installed@),
{
    let mut directives: Vec<Directive> = Vec::new();
    directives.push(Directive::LinkSearch(installed.join("lib")));
    directives.push(Directive::LinkSearch(installed.join("lib64")));
    directives.push(Directive::LinkStatic(LIB_NAME.to_owned()));
    directives
}

/// Whether the omitted headers are to be copied: the sources hold them and the
/// installation does not. An installation that holds them is left as it is.
pub open spec fn repair_needed(source_present: bool, installed_present: bool) -> bool {
    source_present && !installed_present
}

/// Whether the omitted headers are to be copied.
pub fn needs_repair(source_present: bool, installed_present: bool) -> (needed: bool)
    ensures
        needed == repair_needed(source_present, installed_present),
{
    source_present && !installed_present
}

/// The installed header directory after the repair step, each directory given
/// by its files where it exists: the copy of the source directory where the
/// repair was needed, and what was there before where it was not.
pub open spec fn repaired(
    source: Option<Map<Seq<char>, Seq<u8>>>,
    installed: Option<Map<Seq<char>, Seq<u8>>>,
) -> Option<Map<Seq<char>, Seq<u8>>> {
    if repair_needed(source is Some, installed is Some) {
        source
    } else {
        installed
    }
}

/// Repairing twice leaves what repairing once left.
pub proof fn law_repair_is_idempotent(
    source: Option<Map<Seq<char>, Seq<u8>>>,
    installed: Option<Map<Seq<char>, Seq<u8>>>,
)
    ensures
        repaired(source, repaired(source, installed)) == repaired(source, installed),
        !repair_needed(source is Some, repaired(source, installed) is Some),
{
}

} // verus!
