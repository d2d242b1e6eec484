//! The build as a machine: each stage names one piece of outside work, and the
//! outcome of that work decides the stage that follows.

use vstd::prelude::*;
use crate::bindings::{
    bindings_output, bindings_output_path, cached_bindings, cached_bindings_path, generation_for,
    plan_generation, vendored_bindings, vendored_bindings_path, BindingsPlan, BindingsPlanModel,
};
use crate::config::{BuildSettings, SettingsModel};
use crate::directive::{
    link_cpp_runtime, link_precompiled, precompiled_links, runtime_links, watch_variables,
    watched_variables, Directive, DirectiveModel,
};
use crate::error::FatalError;
use crate::path::{BuildPath, PathModel};
use crate::prebuilt::{
    bundled_bindings, bundled_bindings_path, download_command, download_with, extract_archive,
    extract_command, link_prebuilt, prebuilt_dir, prebuilt_library, prebuilt_library_path,
    prebuilt_links, prebuilt_root, prebuilt_url, release_url, Command, CommandModel, DownloadTool,
    PREBUILT_REPO, PREBUILT_TAG,
};
use crate::source_build::{
    default_source_path, default_source_root, headers_path, headers_root, installed_links,
    link_installed, needs_repair, plan_for, plan_source_build, repair_needed, source_path,
    source_root, utility_path, utility_root, PlanModel, SourceBuildPlan,
};
use crate::strategy::{select_strategy, strategy_for, Strategy};

verus! {

/// Where a build stands. Each stage but the last two waits for the outcome of
/// the one piece of outside work that [`action_of`] names for it.
#[derive(Clone, Copy, Debug, PartialEq, Eq, Structural)]
pub enum Stage {
    /// Naming the environment variables that the build depends on.
    AnnounceEnvironment,
    /// Looking for the library of a bundle unpacked by an earlier build.
    ProbePrebuiltCache,
    /// Creating the directory that the bundle is unpacked into.
    CreatePrebuiltDir,
    /// Downloading the bundle with the given tool.
    Download(DownloadTool),
    /// Unpacking the downloaded bundle.
    ExtractPrebuilt,
    /// Looking for the library in what was unpacked.
    VerifyPrebuilt,
    /// Looking for the declarations of the bundle whose library is there.
    ProbeBundledBindings,
    /// Naming the bundle's directory to the linker.
    EmitPrebuiltLinks,
    /// Copying the bundle's declarations to the output.
    CopyBundledBindings,
    /// Naming the headers that the build from the sources depends on.
    AnnounceSources,
    /// Building the sources.
    RunBuild,
    /// Naming the installed library to the linker.
    EmitInstalledLinks,
    /// Looking for the headers that the install step leaves out, in the sources.
    ProbeSourceUtility,
    /// Looking for the same headers in the installation.
    ProbeInstalledUtility,
    /// Creating the directory for those headers in the installation.
    CreateUtilityDir,
    /// Copying those headers from the sources into the installation.
    CopyUtilityHeaders,
    /// Naming the precompiled library to the linker.
    EmitPrecompiledLinks,
    /// Looking for the declarations that come with the package.
    ProbeVendoredBindings,
    /// Copying the declarations that come with the package to the output.
    CopyVendoredBindings,
    /// Looking for declarations in the cache directory.
    ProbeCachedBindings,
    /// Copying the cached declarations to the output.
    CopyCachedBindings,
    /// Generating the declarations from the header.
    GenerateBindings,
    /// Creating the cache directory for the fresh declarations.
    CreateCacheDir,
    /// Copying the fresh declarations into the cache directory.
    StoreCachedBindings,
    /// Naming the C++ runtime to the linker.
    EmitCppRuntime,
    /// The build is done.
    Finished,
    /// The build has failed for good.
    Aborted(FatalError),
}

/// The mathematical content of an [`Outcome`].
pub enum OutcomeModel {
    Succeeded,
    Failed,
    Built(Seq<char>),
}

impl OutcomeModel {
    /// Whether the work did what it was asked for.
    pub open spec fn positive(self) -> bool {
        !(self is Failed)
    }
}

/// How a piece of outside work ended.
#[derive(Clone, Debug, PartialEq, Eq)]
pub enum Outcome {
    /// The work was done; of a probe: the path exists.
    Succeeded,
    /// The work could not be done; of a probe: the path does not exist.
    Failed,
    /// The sources were built and installed into this directory.
    Built(String),
}

impl View for Outcome {
    type V = OutcomeModel;

    open spec fn view(&self) -> OutcomeModel {
        match self {
            Outcome::Succeeded => OutcomeModel::Succeeded,
            Outcome::Failed => OutcomeModel::Failed,
            Outcome::Built(dir) => OutcomeModel::Built(dir@),
        }
    }
}

impl Outcome {
    /// Whether the work did what it was asked for.
    pub fn is_positive(&self) -> (positive: bool)
        ensures
            positive == self@.positive(),
    {
        match self {
            Outcome::Failed => false,
            _ => true,
        }
    }
}

/// The mathematical content of an [`Action`].
pub enum ActionModel {
    Emit(Seq<DirectiveModel>),
    Probe(PathModel),
    MakeDir(PathModel),
    Run(CommandModel),
    Copy { from: PathModel, to: PathModel },
    CopyEntries { from: PathModel, to: PathModel },
    Build(PlanModel),
    Generate(BindingsPlanModel),
    Finish,
    Abort(FatalError),
}

/// One piece of outside work.
#[derive(Clone, Debug, PartialEq, Eq)]
pub enum Action {
    /// Hand these directives to the caller of the build, in this order.
    Emit(Vec<Directive>),
    /// Tell whether this path exists.
    Probe(BuildPath),
    /// Create this directory and the missing ones above it.
    MakeDir(BuildPath),
    /// Run this command.
    Run(Command),
    /// Copy the file `from` to the file `to`.
    Copy { from: BuildPath, to: BuildPath },
    /// Copy each entry of the directory `from` into the directory `to`.
    CopyEntries { from: BuildPath, to: BuildPath },
    /// Build the sources as planned, and tell where they were installed.
    Build(SourceBuildPlan),
    /// Generate the declarations as planned.
    Generate(BindingsPlan),
    /// Nothing is left to do.
    Finish,
    /// End the build with this failure.
    Abort(FatalError),
}

impl View for Action {
    type V = ActionModel;

    open spec fn view(&self) -> ActionModel {
        match self {
            Action::Emit(directives) => ActionModel::Emit(directives.deep_view()),
            Action::Probe(path) => ActionModel::Probe(path@),
            Action::MakeDir(path) => ActionModel::MakeDir(path@),
            Action::Run(command) => ActionModel::Run(command@),
            Action::Copy { from, to } => ActionModel::Copy { from: from@, to: to@ },
            Action::CopyEntries { from, to } => ActionModel::CopyEntries { from: from@, to: to@ },
            Action::Build(plan) => ActionModel::Build(plan@),
            Action::Generate(plan) => ActionModel::Generate(plan@),
            Action::Finish => ActionModel::Finish,
            Action::Abort(error) => ActionModel::Abort(*error),
        }
    }
}

/// The mathematical content of an [`Orchestrator`].
pub struct BuildModel {
    /// What the build was told.
    pub settings: SettingsModel,
    /// Where the build stands.
    pub stage: Stage,
    /// The directory whose headers describe the library: the sources that come
    /// with the package, until a build has installed the library elsewhere.
    pub installed: PathModel,
}

/// The bindings are looked for in the package first, for WebAssembly only.
pub open spec fn enter_bindings(settings: SettingsModel) -> Stage {
    if settings.target.is_wasm() {
        Stage::ProbeVendoredBindings
    } else {
        enter_cache(settings)
    }
}

/// The bindings are looked for in the cache directory next, where one is set,
/// and generated otherwise.
pub open spec fn enter_cache(settings: SettingsModel) -> Stage {
    if settings.config.bindings_cache_dir is Some {
        Stage::ProbeCachedBindings
    } else {
        Stage::GenerateBindings
    }
}

/// Fresh bindings are stored in the cache directory, where one is set.
pub open spec fn after_generation(settings: SettingsModel) -> Stage {
    if settings.config.bindings_cache_dir is Some {
        Stage::CreateCacheDir
    } else {
        epilogue(settings)
    }
}

/// With the bindings in place, a native strategy names the C++ runtime; the
/// others are done.
pub open spec fn epilogue(settings: SettingsModel) -> Stage {
    if strategy_for(settings).links_cpp_runtime() {
        Stage::EmitCppRuntime
    } else {
        Stage::Finished
    }
}

/// Where no bundle is there from an earlier build, one is downloaded, unless
/// the build is told to build the sources instead.
pub open spec fn after_cache_miss(settings: SettingsModel) -> Stage {
    if settings.config.force_wasm_source {
        Stage::AnnounceSources
    } else {
        Stage::CreatePrebuiltDir
    }
}

/// The build of the sources starts when it can be planned.
pub open spec fn enter_build(settings: SettingsModel) -> Stage {
    match plan_for(settings, settings.target.is_wasm()) {
        Ok(_) => Stage::RunBuild,
        Err(error) => Stage::Aborted(error),
    }
}

/// The first stage of each strategy. A WebAssembly build looks for a bundle
/// from an earlier build first, whatever else is set.
pub open spec fn dispatch(settings: SettingsModel) -> Stage {
    match strategy_for(settings) {
        Strategy::BindingsOnly => enter_bindings(settings),
        Strategy::WasmPrebuilt => Stage::ProbePrebuiltCache,
        Strategy::SourceBuild => Stage::AnnounceSources,
        Strategy::PrecompiledLink => Stage::EmitPrecompiledLinks,
    }
}

/// The stage in which a build starts: a build for declarations only goes
/// straight to them.
pub open spec fn initial_stage(settings: SettingsModel) -> Stage {
    if settings.docs_only {
        dispatch(settings)
    } else {
        Stage::AnnounceEnvironment
    }
}

/// The stage that follows `stage` when its work ended as `outcome` says.
pub open spec fn next_stage(settings: SettingsModel, stage: Stage, outcome: OutcomeModel) -> Stage {
    let ok = outcome.positive();
    match stage {
        Stage::AnnounceEnvironment => dispatch(settings),
        Stage::ProbePrebuiltCache => if ok {
            Stage::ProbeBundledBindings
        } else {
            after_cache_miss(settings)
        },
        Stage::CreatePrebuiltDir => if ok {
            Stage::Download(DownloadTool::Curl)
        } else {
            Stage::AnnounceSources
        },
        Stage::Download(tool) => if ok {
            Stage::ExtractPrebuilt
        } else {
            match tool.successor() {
                Some(other) => Stage::Download(other),
                None => Stage::AnnounceSources,
            }
        },
        Stage::ExtractPrebuilt => if ok {
            Stage::VerifyPrebuilt
        } else {
            Stage::AnnounceSources
        },
        Stage::VerifyPrebuilt => if ok {
            Stage::ProbeBundledBindings
        } else {
            Stage::AnnounceSources
        },
        Stage::ProbeBundledBindings => if ok {
            Stage::EmitPrebuiltLinks
        } else {
            Stage::AnnounceSources
        },
        Stage::EmitPrebuiltLinks => Stage::CopyBundledBindings,
        Stage::CopyBundledBindings => if ok {
            Stage::Finished
        } else {
            Stage::Aborted(FatalError::CopyPrebuiltBindingsFailed)
        },
        Stage::AnnounceSources => enter_build(settings),
        Stage::RunBuild => if outcome is Built {
            Stage::EmitInstalledLinks
        } else {
            Stage::Aborted(FatalError::BuildFailed)
        },
        Stage::EmitInstalledLinks => Stage::ProbeSourceUtility,
        Stage::ProbeSourceUtility => if ok {
            Stage::ProbeInstalledUtility
        } else {
            enter_bindings(settings)
        },
        Stage::ProbeInstalledUtility => if repair_needed(true, ok) {
            Stage::CreateUtilityDir
        } else {
            enter_bindings(settings)
        },
        Stage::CreateUtilityDir => if ok {
            Stage::CopyUtilityHeaders
        } else {
            Stage::Aborted(FatalError::CreateUtilityDirFailed)
        },
        Stage::CopyUtilityHeaders => if ok {
            enter_bindings(settings)
        } else {
            Stage::Aborted(FatalError::CopyUtilityHeadersFailed)
        },
        Stage::EmitPrecompiledLinks => enter_bindings(settings),
        Stage::ProbeVendoredBindings => if ok {
            Stage::CopyVendoredBindings
        } else {
            enter_cache(settings)
        },
        Stage::CopyVendoredBindings => if ok {
            epilogue(settings)
        } else {
            Stage::Aborted(FatalError::CopyVendoredBindingsFailed)
        },
        Stage::ProbeCachedBindings => if ok {
            Stage::CopyCachedBindings
        } else {
            Stage::GenerateBindings
        },
        Stage::CopyCachedBindings => if ok {
            epilogue(settings)
        } else {
            Stage::Aborted(FatalError::CopyCachedBindingsFailed)
        },
        Stage::GenerateBindings => if ok {
            after_generation(settings)
        } else {
            Stage::Aborted(FatalError::BindingsGenerationFailed)
        },
        Stage::CreateCacheDir => Stage::StoreCachedBindings,
        Stage::StoreCachedBindings => epilogue(settings),
        Stage::EmitCppRuntime => Stage::Finished,
        Stage::Finished => Stage::Finished,
        Stage::Aborted(error) => Stage::Aborted(error),
    }
}

/// The build before any work was done.
pub open spec fn initial(settings: SettingsModel) -> BuildModel {
    BuildModel {
        settings,
        stage: initial_stage(settings),
        installed: default_source_root(settings.manifest_dir),
    }
}

/// The build after the work of its stage ended as `outcome` says. A build of
/// the sources tells where the library was installed; nothing else is kept of
/// an outcome but the stage it leads to.
pub open spec fn step(build: BuildModel, outcome: OutcomeModel) -> BuildModel {
    BuildModel {
        settings: build.settings,
        stage: next_stage(build.settings, build.stage, outcome),
        installed: match outcome {
            OutcomeModel::Built(dir) if build.stage == Stage::RunBuild => PathModel::rooted(dir),
            _ => build.installed,
        },
    }
}

/// What the stages rely on: a stage that works on an override is entered only
/// where that override is set, and the sources are built only where the build
/// can be planned.
pub open spec fn consistent(build: BuildModel) -> bool {
    let settings = build.settings;
    match build.stage {
        Stage::EmitPrecompiledLinks => settings.config.lib_dir is Some,
        Stage::ProbeCachedBindings => settings.config.bindings_cache_dir is Some,
        Stage::CopyCachedBindings => settings.config.bindings_cache_dir is Some,
        Stage::CreateCacheDir => settings.config.bindings_cache_dir is Some,
        Stage::StoreCachedBindings => settings.config.bindings_cache_dir is Some,
        Stage::RunBuild => plan_for(settings, settings.target.is_wasm()) is Ok,
        _ => true,
    }
}

/// The work that a build waits for.
pub open spec fn action_of(build: BuildModel) -> ActionModel {
    let settings = build.settings;
    let out_dir = settings.out_dir;
    let sources = source_root(settings);
    match build.stage {
        Stage::AnnounceEnvironment => ActionModel::Emit(watched_variables()),
        Stage::ProbePrebuiltCache => ActionModel::Probe(prebuilt_library(out_dir)),
        Stage::CreatePrebuiltDir => ActionModel::MakeDir(prebuilt_root(out_dir)),
        Stage::Download(tool) => ActionModel::Run(
            download_command(tool, out_dir, release_url(PREBUILT_REPO@, PREBUILT_TAG@)),
        ),
        Stage::ExtractPrebuilt => ActionModel::Run(extract_command(out_dir)),
        Stage::VerifyPrebuilt => ActionModel::Probe(prebuilt_library(out_dir)),
        Stage::ProbeBundledBindings => ActionModel::Probe(bundled_bindings(out_dir)),
        Stage::EmitPrebuiltLinks => ActionModel::Emit(prebuilt_links(out_dir)),
        Stage::CopyBundledBindings => ActionModel::Copy {
            from: bundled_bindings(out_dir),
            to: bindings_output(out_dir),
        },
        Stage::AnnounceSources => ActionModel::Emit(
            seq![DirectiveModel::RerunIfChanged(headers_root(sources))],
        ),
        Stage::RunBuild => ActionModel::Build(plan_for(settings, settings.target.is_wasm())->Ok_0),
        Stage::EmitInstalledLinks => ActionModel::Emit(installed_links(build.installed)),
        Stage::ProbeSourceUtility => ActionModel::Probe(utility_root(sources)),
        Stage::ProbeInstalledUtility => ActionModel::Probe(utility_root(build.installed)),
        Stage::CreateUtilityDir => ActionModel::MakeDir(utility_root(build.installed)),
        Stage::CopyUtilityHeaders => ActionModel::CopyEntries {
            from: utility_root(sources),
            to: utility_root(build.installed),
        },
        Stage::EmitPrecompiledLinks => ActionModel::Emit(
            precompiled_links(settings.config.lib_dir->0),
        ),
        Stage::ProbeVendoredBindings => ActionModel::Probe(
            vendored_bindings(settings.manifest_dir),
        ),
        Stage::CopyVendoredBindings => ActionModel::Copy {
            from: vendored_bindings(settings.manifest_dir),
            to: bindings_output(out_dir),
        },
        Stage::ProbeCachedBindings => ActionModel::Probe(
            cached_bindings(settings.config.bindings_cache_dir->0),
        ),
        Stage::CopyCachedBindings => ActionModel::Copy {
            from: cached_bindings(settings.config.bindings_cache_dir->0),
            to: bindings_output(out_dir),
        },
        Stage::GenerateBindings => ActionModel::Generate(generation_for(build.installed, out_dir)),
        Stage::CreateCacheDir => ActionModel::MakeDir(
            PathModel::rooted(settings.config.bindings_cache_dir->0),
        ),
        Stage::StoreCachedBindings => ActionModel::Copy {
            from: bindings_output(out_dir),
            to: cached_bindings(settings.config.bindings_cache_dir->0),
        },
        Stage::EmitCppRuntime => ActionModel::Emit(runtime_links(settings.target)),
        Stage::Finished => ActionModel::Finish,
        Stage::Aborted(error) => ActionModel::Abort(error),
    }
}

/// A build starts consistent.
pub proof fn law_initial_is_consistent(settings: SettingsModel)
    ensures
        consistent(initial(settings)),
{
}

/// A consistent build stays consistent, however its work ends.
pub proof fn law_step_keeps_consistent(build: BuildModel, outcome: OutcomeModel)
    requires
        consistent(build),
    ensures
        consistent(step(build, outcome)),
{
}

/// A build in progress. It is made by [`Orchestrator::start`] and moved on by
/// [`Orchestrator::advance`] only, so that it is consistent at every stage.
#[derive(Debug)]
pub struct Orchestrator {
    settings: BuildSettings,
    stage: Stage,
    installed: BuildPath,
}

impl View for Orchestrator {
    type V = BuildModel;

    closed spec fn view(&self) -> BuildModel {
        BuildModel { settings: self.settings@, stage: self.stage, installed: self.installed@ }
    }
}

fn bindings_entry(settings: &BuildSettings) -> (stage: Stage)
    ensures
        stage == enter_bindings(settings@),
{
    if settings.target.is_wasm() {
        Stage::ProbeVendoredBindings
    } else {
        cache_entry(settings)
    }
}

fn cache_entry(settings: &BuildSettings) -> (stage: Stage)
    ensures
        stage == enter_cache(settings@),
{
    if settings.config.bindings_cache_dir.is_some() {
        Stage::ProbeCachedBindings
    } else {
        Stage::GenerateBindings
    }
}

fn final_entry(settings: &BuildSettings) -> (stage: Stage)
    ensures
        stage == epilogue(settings@),
{
    if select_strategy(settings).needs_cpp_runtime() {
        Stage::EmitCppRuntime
    } else {
        Stage::Finished
    }
}

fn storage_entry(settings: &BuildSettings) -> (stage: Stage)
    ensures
        stage == after_generation(settings@),
{
    if settings.config.bindings_cache_dir.is_some() {
        Stage::CreateCacheDir
    } else {
        final_entry(settings)
    }
}

fn build_entry(settings: &BuildSettings) -> (stage: Stage)
    ensures
        stage == enter_build(settings@),
{
    if settings.target.is_wasm() && settings.config.sdk_root.is_none() {
        Stage::Aborted(FatalError::MissingSdkRoot)
    } else {
        Stage::RunBuild
    }
}

fn strategy_entry(settings: &BuildSettings) -> (stage: Stage)
    ensures
        stage == dispatch(settings@),
{
    match select_strategy(settings) {
        Strategy::BindingsOnly => bindings_entry(settings),
        Strategy::WasmPrebuilt => Stage::ProbePrebuiltCache,
        Strategy::SourceBuild => Stage::AnnounceSources,
        Strategy::PrecompiledLink => Stage::EmitPrecompiledLinks,
    }
}

/// The stage that follows `stage` when its work ended as `outcome` says.
pub fn following_stage(settings: &BuildSettings, stage: Stage, outcome: &Outcome) -> (next: Stage)
    ensures
        next == next_stage(settings@, stage, outcome@),
{
    let ok = outcome.is_positive();
    match stage {
        Stage::AnnounceEnvironment => strategy_entry(settings),
        Stage::ProbePrebuiltCache => if ok {
            Stage::ProbeBundledBindings
        } else if settings.config.force_wasm_source {
            Stage::AnnounceSources
        } else {
            Stage::CreatePrebuiltDir
        },
        Stage::CreatePrebuiltDir => if ok {
            Stage::Download(DownloadTool::Curl)
        } else {
            Stage::AnnounceSources
        },
        Stage::Download(tool) => if ok {
            Stage::ExtractPrebuilt
        } else {
            match tool.next() {
                Some(other) => Stage::Download(other),
                None => Stage::AnnounceSources,
            }
        },
        Stage::ExtractPrebuilt => if ok {
            Stage::VerifyPrebuilt
        } else {
            Stage::AnnounceSources
        },
        Stage::VerifyPrebuilt => if ok {
            Stage::ProbeBundledBindings
        } else {
            Stage::AnnounceSources
        },
        Stage::ProbeBundledBindings => if ok {
            Stage::EmitPrebuiltLinks
        } else {
            Stage::AnnounceSources
        },
        Stage::EmitPrebuiltLinks => Stage::CopyBundledBindings,
        Stage::CopyBundledBindings => if ok {
            Stage::Finished
        } else {
            Stage::Aborted(FatalError::CopyPrebuiltBindingsFailed)
        },
        Stage::AnnounceSources => build_entry(settings),
        Stage::RunBuild => match outcome {
            Outcome::Built(_) => Stage::EmitInstalledLinks,
            _ => Stage::Aborted(FatalError::BuildFailed),
        },
        Stage::EmitInstalledLinks => Stage::ProbeSourceUtility,
        Stage::ProbeSourceUtility => if ok {
            Stage::ProbeInstalledUtility
        } else {
            bindings_entry(settings)
        },
        Stage::ProbeInstalledUtility => if needs_repair(true, ok) {
            Stage::CreateUtilityDir
        } else {
            bindings_entry(settings)
        },
        Stage::CreateUtilityDir => if ok {
            Stage::CopyUtilityHeaders
        } else {
            Stage::Aborted(FatalError::CreateUtilityDirFailed)
        },
        Stage::CopyUtilityHeaders => if ok {
            bindings_entry(settings)
        } else {
            Stage::Aborted(FatalError::CopyUtilityHeadersFailed)
        },
        Stage::EmitPrecompiledLinks => bindings_entry(settings),
        Stage::ProbeVendoredBindings => if ok {
            Stage::CopyVendoredBindings
        } else {
            cache_entry(settings)
        },
        Stage::CopyVendoredBindings => if ok {
            final_entry(settings)
        } else {
            Stage::Aborted(FatalError::CopyVendoredBindingsFailed)
        },
        Stage::ProbeCachedBindings => if ok {
            Stage::CopyCachedBindings
        } else {
            Stage::GenerateBindings
        },
        Stage::CopyCachedBindings => if ok {
            final_entry(settings)
        } else {
            Stage::Aborted(FatalError::CopyCachedBindingsFailed)
        },
        Stage::GenerateBindings => if ok {
            storage_entry(settings)
        } else {
            Stage::Aborted(FatalError::BindingsGenerationFailed)
        },
        Stage::CreateCacheDir => Stage::StoreCachedBindings,
        Stage::StoreCachedBindings => final_entry(settings),
        Stage::EmitCppRuntime => Stage::Finished,
        Stage::Finished => Stage::Finished,
        Stage::Aborted(error) => Stage::Aborted(error),
    }
}

impl Orchestrator {
    #[verifier::type_invariant]
    spec fn well_formed(self) -> bool {
        consistent(self@)
    }

    /// A build for `settings`, before any work was done.
    pub fn start(settings: BuildSettings) -> (build: Orchestrator)
        ensures
            build@ == initial(settings@),
    {
        let stage = if settings.docs_only {
            strategy_entry(&settings)
        } else {
            Stage::AnnounceEnvironment
        };
        let installed = default_source_path(settings.manifest_dir.as_str());
        Orchestrator { settings, stage, installed }
    }

    /// Where the build stands.
    pub fn stage(&self) -> (stage: Stage)
        ensures
            stage == self@.stage,
    {
        self.stage
    }

    /// What the build was told.
    pub fn settings(&self) -> (settings: &BuildSettings)
        ensures
            settings@ == self@.settings,
    {
        &self.settings
    }

    /// The cache directory, or the empty text where none is set. The stages
    /// that work on it are entered only where one is set.
    fn cache_dir(&self) -> (dir: &str)
        ensures
            self@.settings.config.bindings_cache_dir matches Some(set) ==> dir@ == set,
    {
        match &self.settings.config.bindings_cache_dir {
            Some(dir) => dir.as_str(),
            None => "",
        }
    }

    /// The precompiled library directory, or the empty text where none is set.
    /// The stage that works on it is entered only where one is set.
    fn lib_dir(&self) -> (dir: &str)
        ensures
            self@.settings.config.lib_dir matches Some(set) ==> dir@ == set,
    {
        match &self.settings.config.lib_dir {
            Some(dir) => dir.as_str(),
            None => "",
        }
    }

    /// Whether the build has ended, well or badly.
    pub fn is_over(&self) -> (over: bool)
        ensures
            over == (self@.stage is Finished || self@.stage is Aborted),
    {
        match self.stage {
            Stage::Finished => true,
            Stage::Aborted(_) => true,
            _ => false,
        }
    }

    /// Moves the build on: `outcome` tells how the pending work ended.
    pub fn advance(&mut self, outcome: &Outcome)
        ensures
            final(self)@ == step(old(self)@, outcome@),
    {
        proof {
            use_type_invariant(&*self);
        }
        let next = following_stage(&self.settings, self.stage, outcome);
        match (self.stage, outcome) {
            (Stage::RunBuild, Outcome::Built(dir)) => {
                self.installed = BuildPath::new(dir.as_str());
            },
            _ => {},
        }
        self.stage = next;
    }

    /// The work that the build waits for.
    pub fn pending(&self) -> (action: Action)
        ensures
            action@ == action_of(self@),
    {
        proof {
            use_type_invariant(self);
        }
        let settings = &self.settings;
        let out_dir = settings.out_dir.as_str();
        match self.stage {
            Stage::AnnounceEnvironment => Action::Emit(watch_variables()),
            Stage::ProbePrebuiltCache => Action::Probe(prebuilt_library_path(out_dir)),
            Stage::CreatePrebuiltDir => Action::MakeDir(prebuilt_dir(out_dir)),
            Stage::Download(tool) => {
                let url = prebuilt_url();
                Action::Run(download_with(tool, out_dir, url.as_str()))
            },
            Stage::ExtractPrebuilt => Action::Run(extract_archive(out_dir)),
            Stage::VerifyPrebuilt => Action::Probe(prebuilt_library_path(out_dir)),
            Stage::ProbeBundledBindings => Action::Probe(bundled_bindings_path(out_dir)),
            Stage::EmitPrebuiltLinks => Action::Emit(link_prebuilt(out_dir)),
            Stage::CopyBundledBindings => Action::Copy {
                from: bundled_bindings_path(out_dir),
                to: bindings_output_path(out_dir),
            },
            Stage::AnnounceSources => {
                let mut directives: Vec<Directive> = Vec::new();
                directives.push(Directive::RerunIfChanged(headers_path(&source_path(settings))));
                assert(directives.deep_view() =~= seq![
                    DirectiveModel::RerunIfChanged(headers_root(source_root(settings@))),
                ]);
                Action::Emit(directives)
            },
            Stage::RunBuild => {
                // This stage is entered only where the build can be planned.
                match plan_source_build(settings, settings.target.is_wasm()) {
                    Ok(plan) => Action::Build(plan),
                    Err(error) => Action::Abort(error),
                }
            },
            Stage::EmitInstalledLinks => Action::Emit(link_installed(&self.installed)),
            Stage::ProbeSourceUtility => Action::Probe(utility_path(&source_path(settings))),
            Stage::ProbeInstalledUtility => Action::Probe(utility_path(&self.installed)),
            Stage::CreateUtilityDir => Action::MakeDir(utility_path(&self.installed)),
            Stage::CopyUtilityHeaders => Action::CopyEntries {
                from: utility_path(&source_path(settings)),
                to: utility_path(&self.installed),
            },
            Stage::EmitPrecompiledLinks => Action::Emit(link_precompiled(self.lib_dir())),
            Stage::ProbeVendoredBindings => Action::Probe(
                vendored_bindings_path(settings.manifest_dir.as_str()),
            ),
            Stage::CopyVendoredBindings => Action::Copy {
                from: vendored_bindings_path(settings.manifest_dir.as_str()),
                to: bindings_output_path(out_dir),
            },
            Stage::ProbeCachedBindings => Action::Probe(cached_bindings_path(self.cache_dir())),
            Stage::CopyCachedBindings => Action::Copy {
                from: cached_bindings_path(self.cache_dir()),
                to: bindings_output_path(out_dir),
            },
            Stage::GenerateBindings => Action::Generate(plan_generation(&self.installed, out_dir)),
            Stage::CreateCacheDir => Action::MakeDir(BuildPath::new(self.cache_dir())),
            Stage::StoreCachedBindings => Action::Copy {
                from: bindings_output_path(out_dir),
                to: cached_bindings_path(self.cache_dir()),
            },
            Stage::EmitCppRuntime => Action::Emit(link_cpp_runtime(&settings.target)),
            Stage::Finished => Action::Finish,
            Stage::Aborted(error) => Action::Abort(error),
        }
    }
}

} // verus!
