//! The lines by which a build tells its caller what to link and what to watch.

use vstd::prelude::*;
use crate::config::{BINDINGS_CACHE_KEY, LIB_DIR_KEY, SDK_ROOT_KEY, SOURCE_DIR_KEY};
use crate::path::{BuildPath, PathModel};
use crate::target::{BuildTarget, CppRuntime, TargetModel};

verus! {

/// The name under which the native library is linked.
pub const LIB_NAME: &'static str = "FastNoise";

/// The mathematical content of a [`Directive`].
pub enum DirectiveModel {
    RerunIfEnvChanged(Seq<char>),
    RerunIfChanged(PathModel),
    LinkSearch(PathModel),
    LinkStatic(Seq<char>),
    LinkDynamic(Seq<char>),
    Warning(Seq<char>),
}

/// One line for the caller of the build.
#[derive(Clone, Debug, PartialEq, Eq)]
pub enum Directive {
    /// Build again when this environment variable changes.
    RerunIfEnvChanged(String),
    /// Build again when anything under this path changes.
    RerunIfChanged(BuildPath),
    /// Search this directory for native libraries.
    LinkSearch(BuildPath),
    /// Link this static library.
    LinkStatic(String),
    /// Link this dynamic library.
    LinkDynamic(String),
    /// Show this text; it changes nothing.
    Warning(String),
}

impl View for Directive {
    type V = DirectiveModel;

    open spec fn view(&self) -> DirectiveModel {
        match self {
            Directive::RerunIfEnvChanged(name) => DirectiveModel::RerunIfEnvChanged(name@),
            Directive::RerunIfChanged(path) => DirectiveModel::RerunIfChanged(path@),
            Directive::LinkSearch(path) => DirectiveModel::LinkSearch(path@),
            Directive::LinkStatic(name) => DirectiveModel::LinkStatic(name@),
            Directive::LinkDynamic(name) => DirectiveModel::LinkDynamic(name@),
            Directive::Warning(text) => DirectiveModel::Warning(text@),
        }
    }
}

impl DeepView for Directive {
    type V = DirectiveModel;

    open spec fn deep_view(&self) -> DirectiveModel {
        self@
    }
}

impl DirectiveModel {
    /// What stands in front of the directive's value on its line.
    pub open spec fn keyword(self) -> Seq<char> {
        match self {
            DirectiveModel::RerunIfEnvChanged(_) => "cargo:rerun-if-env-changed="@,
            DirectiveModel::RerunIfChanged(_) => "cargo:rerun-if-changed="@,
            DirectiveModel::LinkSearch(_) => "cargo:rustc-link-search=native="@,
            DirectiveModel::LinkStatic(_) => "cargo:rustc-link-lib=static="@,
            DirectiveModel::LinkDynamic(_) => "cargo:rustc-link-lib=dylib="@,
            DirectiveModel::Warning(_) => "cargo:warning="@,
        }
    }
}

impl Directive {
    /// What stands in front of the directive's value on its line.
    pub fn keyword(&self) -> (word: &'static str)
        ensures
            word@ == self@.keyword(),
    {
        match self {
            Directive::RerunIfEnvChanged(_) => "cargo:rerun-if-env-changed=",
            Directive::RerunIfChanged(_) => "cargo:rerun-if-changed=",
            Directive::LinkSearch(_) => "cargo:rustc-link-search=native=",
            Directive::LinkStatic(_) => "cargo:rustc-link-lib=static=",
            Directive::LinkDynamic(_) => "cargo:rustc-link-lib=dylib=",
            Directive::Warning(_) => "cargo:warning=",
        }
    }
}

/// The text shown for a target whose C++ runtime is not known.
pub const UNKNOWN_TARGET_WARNING: &'static str = "Unknown target for C++ stdlib linking";

/// The environment variables whose change calls for a new build.
pub open spec fn watched_variables() -> Seq<DirectiveModel> {
    seq![
        DirectiveModel::RerunIfEnvChanged(SOURCE_DIR_KEY@),
        DirectiveModel::RerunIfEnvChanged(LIB_DIR_KEY@),
        DirectiveModel::RerunIfEnvChanged(BINDINGS_CACHE_KEY@),
        DirectiveModel::RerunIfEnvChanged(SDK_ROOT_KEY@),
    ]
}

/// The directives for a library that lies compiled in `dir`: the directory is
/// searched, and the library is linked statically.
pub open spec fn precompiled_links(dir: Seq<char>) -> Seq<DirectiveModel> {
    seq![
        DirectiveModel::LinkSearch(PathModel::rooted(dir)),
        DirectiveModel::LinkStatic(LIB_NAME@),
    ]
}

/// The directives that give a native target its C++ runtime: the runtime's
/// library where one is linked by name, nothing where the linker supplies it,
/// and a warning, which changes nothing, where the target is not known.
pub open spec fn runtime_links(target: TargetModel) -> Seq<DirectiveModel> {
    let runtime = target.cpp_runtime();
    match runtime.library() {
        Some(name) => seq![DirectiveModel::LinkDynamic(name)],
        None => if runtime == CppRuntime::Unrecognized {
            seq![DirectiveModel::Warning(UNKNOWN_TARGET_WARNING@)]
        } else {
            Seq::empty()
        },
    }
}

/// The environment variables whose change calls for a new build.
pub fn watch_variables() -> (directives: Vec<Directive>)
    ensures
        directives.deep_view() == watched_variables(),
{
    let mut directives: Vec<Directive> = Vec::new();
    directives.push(Directive::RerunIfEnvChanged(SOURCE_DIR_KEY.to_owned()));
    directives.push(Directive::RerunIfEnvChanged(LIB_DIR_KEY.to_owned()));
    directives.push(Directive::RerunIfEnvChanged(BINDINGS_CACHE_KEY.to_owned()));
    directives.push(Directive::RerunIfEnvChanged(SDK_ROOT_KEY.to_owned()));
    directives
}

/// The directives for a library that lies compiled in `dir`.
pub fn link_precompiled(dir: &str) -> (directives: Vec<Directive>)
    ensures
        directives.deep_view() == precompiled_links(dir@),
{
    let mut directives: Vec<Directive> = Vec::new();
    directives.push(Directive::LinkSearch(BuildPath::new(dir)));
    directives.push(Directive::LinkStatic(LIB_NAME.to_owned()));
    directives
}

/// The directives that give a native target its C++ runtime.
pub fn link_cpp_runtime(target: &BuildTarget) -> (directives: Vec<Directive>)
    ensures
        directives.deep_view() == runtime_links(target@),
{
    let mut directives: Vec<Directive> = Vec::new();
    let runtime = target.cpp_runtime();
    match runtime.library_name() {
        Some(name) => {
            directives.push(Directive::LinkDynamic(name));
        },
        None => {
            match runtime {
                CppRuntime::Unrecognized => {
                    directives.push(Directive::Warning(UNKNOWN_TARGET_WARNING.to_owned()));
                },
                _ => {},
            }
        },
    }
    directives
}

} // verus!
