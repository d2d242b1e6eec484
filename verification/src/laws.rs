//! What holds of every build, whatever the outside work answers.

use vstd::prelude::*;
use crate::config::SettingsModel;
use crate::orchestrator::{action_of, initial, step, ActionModel, BuildModel, OutcomeModel, Stage};

verus! {

/// The build after the outcomes of `outcomes` were handed to it one by one.
pub open spec fn run(build: BuildModel, outcomes: Seq<OutcomeModel>) -> BuildModel
    decreases outcomes.len(),
{
    if outcomes.len() == 0 {
        build
    } else {
        step(run(build, outcomes.drop_last()), outcomes.last())
    }
}

/// Whether, in the run of `outcomes`, the work of `stage` ended positively
/// every time the build stood there (`positive`), or negatively every time.
pub open spec fn answered(
    build: BuildModel,
    outcomes: Seq<OutcomeModel>,
    stage: Stage,
    positive: bool,
) -> bool {
    forall|i: int|
        0 <= i < outcomes.len() && (#[trigger] run(build, outcomes.take(i))).stage == stage
            ==> outcomes[i].positive() == positive
}

/// The stages of the fetcher in which the network or the archive is touched.
pub open spec fn downloads(stage: Stage) -> bool {
    stage is CreatePrebuiltDir || stage is Download || stage is ExtractPrebuilt
        || stage is VerifyPrebuilt
}

/// The stages of the prebuilt bundle.
pub open spec fn fetches(stage: Stage) -> bool {
    downloads(stage) || stage is ProbePrebuiltCache || stage is EmitPrebuiltLinks
        || stage is ProbeBundledBindings || stage is CopyBundledBindings
}

/// The stages of the build from the sources.
pub open spec fn builds_sources(stage: Stage) -> bool {
    stage is AnnounceSources || stage is RunBuild || stage is EmitInstalledLinks
        || stage is ProbeSourceUtility || stage is ProbeInstalledUtility
        || stage is CreateUtilityDir || stage is CopyUtilityHeaders
}

/// The stages of a fresh generation of the declarations.
pub open spec fn generates(stage: Stage) -> bool {
    stage is GenerateBindings || stage is CreateCacheDir || stage is StoreCachedBindings
}

/// Whether a directive names a dynamic library.
pub open spec fn emits_dynamic_link(action: ActionModel) -> bool {
    action matches ActionModel::Emit(directives) && exists|i: int|
        0 <= i < directives.len() && #[trigger] directives[i] is LinkDynamic
}

/// What was answered in a run was answered in the run of its outcomes but the
/// last.
proof fn answered_before(
    build: BuildModel,
    outcomes: Seq<OutcomeModel>,
    stage: Stage,
    positive: bool,
)
    requires
        outcomes.len() > 0,
        answered(build, outcomes, stage, positive),
    ensures
        answered(build, outcomes.drop_last(), stage, positive),
{
    let shorter = outcomes.drop_last();
    assert forall|i: int|
        0 <= i < shorter.len() && (#[trigger] run(build, shorter.take(i))).stage == stage
            implies shorter[i].positive() == positive by {
        assert(shorter.take(i) =~= outcomes.take(i));
    }
}

/// The settings of a build never change.
pub proof fn law_settings_are_kept(build: BuildModel, outcomes: Seq<OutcomeModel>)
    ensures
        run(build, outcomes).settings == build.settings,
    decreases outcomes.len(),
{
    if outcomes.len() > 0 {
        law_settings_are_kept(build, outcomes.drop_last());
    }
}

/// For a WebAssembly target the build never stands at the stage that names the
/// C++ runtime, and never hands out a directive that links a dynamic library.
pub proof fn law_wasm_skips_cpp_runtime(settings: SettingsModel, outcomes: Seq<OutcomeModel>)
    requires
        settings.target.is_wasm(),
    ensures
        run(initial(settings), outcomes).stage != Stage::EmitCppRuntime,
        !emits_dynamic_link(action_of(run(initial(settings), outcomes))),
{
    if outcomes.len() > 0 {
        law_settings_are_kept(initial(settings), outcomes.drop_last());
    }
}

/// With a precompiled library directory and no forced build from the sources,
/// a native target never has the sources built and never has a bundle fetched.
pub proof fn law_precompiled_skips_source_build(
    settings: SettingsModel,
    outcomes: Seq<OutcomeModel>,
)
    requires
        settings.config.lib_dir is Some,
        !settings.config.force_source,
        !settings.target.is_wasm(),
    ensures
        !builds_sources(run(initial(settings), outcomes).stage),
        !fetches(run(initial(settings), outcomes).stage),
        !(action_of(run(initial(settings), outcomes)) is Build),
    decreases outcomes.len(),
{
    if outcomes.len() > 0 {
        law_precompiled_skips_source_build(settings, outcomes.drop_last());
    }
}

/// Where the cache directory is set and holds the declarations whenever it is
/// looked into, the declarations are never generated.
pub proof fn law_cached_bindings_skip_generation(
    settings: SettingsModel,
    outcomes: Seq<OutcomeModel>,
)
    requires
        settings.config.bindings_cache_dir is Some,
        answered(initial(settings), outcomes, Stage::ProbeCachedBindings, true),
    ensures
        !generates(run(initial(settings), outcomes).stage),
        !(action_of(run(initial(settings), outcomes)) is Generate),
    decreases outcomes.len(),
{
    if outcomes.len() > 0 {
        law_settings_are_kept(initial(settings), outcomes.drop_last());
        answered_before(initial(settings), outcomes, Stage::ProbeCachedBindings, true);
        law_cached_bindings_skip_generation(settings, outcomes.drop_last());
    }
}

/// Where the package's declarations are there whenever they are looked for,
/// a WebAssembly target never has the declarations generated.
pub proof fn law_vendored_bindings_skip_generation(
    settings: SettingsModel,
    outcomes: Seq<OutcomeModel>,
)
    requires
        settings.target.is_wasm(),
        answered(initial(settings), outcomes, Stage::ProbeVendoredBindings, true),
    ensures
        !generates(run(initial(settings), outcomes).stage),
        !(run(initial(settings), outcomes).stage is ProbeCachedBindings),
        !(run(initial(settings), outcomes).stage is CopyCachedBindings),
        !(action_of(run(initial(settings), outcomes)) is Generate),
    decreases outcomes.len(),
{
    if outcomes.len() > 0 {
        law_settings_are_kept(initial(settings), outcomes.drop_last());
        answered_before(initial(settings), outcomes, Stage::ProbeVendoredBindings, true);
        law_vendored_bindings_skip_generation(settings, outcomes.drop_last());
    }
}

/// Where the bundle's library is there whenever the fetcher looks for it
/// first, nothing is downloaded or unpacked: no command is ever run.
pub proof fn law_cached_bundle_skips_download(
    settings: SettingsModel,
    outcomes: Seq<OutcomeModel>,
)
    requires
        answered(initial(settings), outcomes, Stage::ProbePrebuiltCache, true),
    ensures
        !downloads(run(initial(settings), outcomes).stage),
        !(action_of(run(initial(settings), outcomes)) is Run),
    decreases outcomes.len(),
{
    if outcomes.len() > 0 {
        answered_before(initial(settings), outcomes, Stage::ProbePrebuiltCache, true);
        law_cached_bundle_skips_download(settings, outcomes.drop_last());
    }
}

/// An upper bound on the pieces of outside work that a build at `stage` still
/// waits for.
pub open spec fn remaining(stage: Stage) -> nat {
    match stage {
        Stage::AnnounceEnvironment => 21,
        Stage::ProbePrebuiltCache => 20,
        Stage::CreatePrebuiltDir => 19,
        Stage::Download(tool) => match tool.successor() {
            Some(_) => 18,
            None => 17,
        },
        Stage::ExtractPrebuilt => 16,
        Stage::VerifyPrebuilt => 15,
        Stage::ProbeBundledBindings => 14,
        Stage::AnnounceSources => 13,
        Stage::RunBuild => 12,
        Stage::EmitInstalledLinks => 11,
        Stage::ProbeSourceUtility => 10,
        Stage::ProbeInstalledUtility => 9,
        Stage::CreateUtilityDir => 8,
        Stage::CopyUtilityHeaders => 7,
        Stage::EmitPrecompiledLinks => 7,
        Stage::ProbeVendoredBindings => 6,
        Stage::ProbeCachedBindings => 5,
        Stage::GenerateBindings => 4,
        Stage::CreateCacheDir => 3,
        Stage::StoreCachedBindings => 2,
        Stage::CopyVendoredBindings => 2,
        Stage::CopyCachedBindings => 2,
        Stage::EmitPrebuiltLinks => 2,
        Stage::CopyBundledBindings => 1,
        Stage::EmitCppRuntime => 1,
        Stage::Finished => 0,
        Stage::Aborted(_) => 0,
    }
}

/// Whether the build has ended, well or badly.
pub open spec fn over(stage: Stage) -> bool {
    stage is Finished || stage is Aborted
}

/// Every piece of work brings a build nearer to its end, however it ends; a
/// build that has ended stays as it is.
pub proof fn law_each_step_nears_the_end(build: BuildModel, outcome: OutcomeModel)
    ensures
        over(build.stage) <==> remaining(build.stage) == 0,
        !over(build.stage) ==> remaining(step(build, outcome).stage) < remaining(build.stage),
        over(build.stage) ==> step(build, outcome) == build,
{
}

/// No build waits for more than twenty-one pieces of outside work: after
/// that many outcomes, whatever they are, it has ended.
pub proof fn law_every_build_ends(settings: SettingsModel, outcomes: Seq<OutcomeModel>)
    ensures
        remaining(run(initial(settings), outcomes).stage) + outcomes.len() <= 21 || over(
            run(initial(settings), outcomes).stage,
        ),
        outcomes.len() >= 21 ==> over(run(initial(settings), outcomes).stage),
    decreases outcomes.len(),
{
    if outcomes.len() > 0 {
        law_every_build_ends(settings, outcomes.drop_last());
    }
}

/// The stages that name a compiled library to the linker.
pub open spec fn links_library(stage: Stage) -> bool {
    stage is EmitPrebuiltLinks || stage is EmitInstalledLinks || stage is EmitPrecompiledLinks
}

/// The stages from which no library is named to the linker any more.
spec fn past_linking(stage: Stage) -> bool {
    !links_library(stage) && !downloads(stage) && !(stage is ProbePrebuiltCache) && !(stage
        is ProbeBundledBindings) && !(stage is AnnounceEnvironment) && !(stage
        is AnnounceSources) && !(stage is RunBuild)
}

/// The stages that write the declarations file.
pub open spec fn writes_bindings(stage: Stage) -> bool {
    stage is CopyBundledBindings || stage is CopyVendoredBindings || stage is CopyCachedBindings
        || stage is GenerateBindings
}

/// The stages from which the declarations file is not written any more.
spec fn past_bindings(stage: Stage) -> bool {
    stage is CreateCacheDir || stage is StoreCachedBindings || stage is EmitCppRuntime || over(
        stage,
    )
}

/// A run in two parts is the run of the second part from where the first led.
pub proof fn law_runs_compose(
    build: BuildModel,
    first: Seq<OutcomeModel>,
    second: Seq<OutcomeModel>,
)
    ensures
        run(build, first + second) == run(run(build, first), second),
    decreases second.len(),
{
    if second.len() == 0 {
    } else {
        law_runs_compose(build, first, second.drop_last());
        assert((first + second).drop_last() =~= first + second.drop_last());
    }
}

/// Once a library was named to the linker, or the point for it is past, no
/// library is named again.
proof fn linking_is_left_behind(build: BuildModel, outcomes: Seq<OutcomeModel>)
    requires
        links_library(build.stage) || past_linking(build.stage),
        outcomes.len() > 0,
    ensures
        past_linking(run(build, outcomes).stage),
    decreases outcomes.len(),
{
    if outcomes.len() > 1 {
        linking_is_left_behind(build, outcomes.drop_last());
    } else {
        assert(run(build, outcomes.drop_last()) == build);
    }
}

/// Once the declarations were written, or the point for it is past, they are
/// not written again.
proof fn bindings_are_left_behind(build: BuildModel, outcomes: Seq<OutcomeModel>)
    requires
        writes_bindings(build.stage) || past_bindings(build.stage),
        outcomes.len() > 0,
    ensures
        past_bindings(run(build, outcomes).stage),
    decreases outcomes.len(),
{
    if outcomes.len() > 1 {
        bindings_are_left_behind(build, outcomes.drop_last());
    } else {
        assert(run(build, outcomes.drop_last()) == build);
    }
}

/// A build names at most one compiled library to the linker: of two different
/// moments of a run, at most one stands at a stage that does so. Whichever
/// way of obtaining the library got there, no other way follows it.
pub proof fn law_one_library_per_build(
    settings: SettingsModel,
    outcomes: Seq<OutcomeModel>,
    earlier: int,
    later: int,
)
    requires
        0 <= earlier < later <= outcomes.len(),
        links_library(run(initial(settings), outcomes.take(earlier)).stage),
    ensures
        !links_library(run(initial(settings), outcomes.take(later)).stage),
{
    let first = outcomes.take(earlier);
    let second = outcomes.subrange(earlier, later);
    assert(first + second =~= outcomes.take(later));
    law_runs_compose(initial(settings), first, second);
    linking_is_left_behind(run(initial(settings), first), second);
}

/// A build writes the declarations at most once: of two different moments of
/// a run, at most one stands at a stage that writes them. A provenance that
/// has supplied the file is never followed by another.
pub proof fn law_bindings_are_written_once(
    settings: SettingsModel,
    outcomes: Seq<OutcomeModel>,
    earlier: int,
    later: int,
)
    requires
        0 <= earlier < later <= outcomes.len(),
        writes_bindings(run(initial(settings), outcomes.take(earlier)).stage),
    ensures
        !writes_bindings(run(initial(settings), outcomes.take(later)).stage),
{
    let first = outcomes.take(earlier);
    let second = outcomes.subrange(earlier, later);
    assert(first + second =~= outcomes.take(later));
    law_runs_compose(initial(settings), first, second);
    bindings_are_left_behind(run(initial(settings), first), second);
}

/// No failure of the fetcher ends the build: whatever happens while the
/// bundle is looked for, downloaded, unpacked or checked, the build goes on,
/// and where the bundle cannot be had, or lacks its library or its
/// declarations, it goes on with the sources.
pub proof fn law_fetch_failures_are_soft(build: BuildModel, outcome: OutcomeModel)
    requires
        downloads(build.stage) || build.stage is ProbePrebuiltCache || build.stage
            is ProbeBundledBindings,
    ensures
        !(step(build, outcome).stage is Aborted),
        !outcome.positive() ==> downloads(step(build, outcome).stage) || step(
            build,
            outcome,
        ).stage is AnnounceSources,
{
}

/// Where the installation holds the omitted headers whenever it is looked
/// into, nothing is created or copied there: headers that are installed are
/// never overwritten.
pub proof fn law_installed_headers_are_kept(settings: SettingsModel, outcomes: Seq<OutcomeModel>)
    requires
        answered(initial(settings), outcomes, Stage::ProbeInstalledUtility, true),
    ensures
        !(run(initial(settings), outcomes).stage is CreateUtilityDir),
        !(run(initial(settings), outcomes).stage is CopyUtilityHeaders),
        !(action_of(run(initial(settings), outcomes)) is CopyEntries),
    decreases outcomes.len(),
{
    if outcomes.len() > 0 {
        answered_before(initial(settings), outcomes, Stage::ProbeInstalledUtility, true);
        law_installed_headers_are_kept(settings, outcomes.drop_last());
    }
}

/// Whether a compiled library was named to the linker at some moment of the
/// run.
pub open spec fn has_linked(build: BuildModel, outcomes: Seq<OutcomeModel>) -> bool {
    exists|i: int|
        0 <= i <= outcomes.len() && links_library((#[trigger] run(build, outcomes.take(i))).stage)
}

/// Whether the declarations file was due to be written at some moment of the
/// run.
pub open spec fn has_written_bindings(build: BuildModel, outcomes: Seq<OutcomeModel>) -> bool {
    exists|i: int|
        0 <= i <= outcomes.len() && writes_bindings(
            (#[trigger] run(build, outcomes.take(i))).stage,
        )
}

/// The stages that a build which links a library reaches only after it has
/// named the library to the linker.
spec fn past_linking_point(stage: Stage) -> bool {
    past_linking(stage) && !(stage is Aborted)
}

/// The stages that are reached only once the declarations are dealt with.
spec fn past_bindings_point(stage: Stage) -> bool {
    past_bindings(stage) && !(stage is Aborted)
}

/// A build that links a library and stands past the point for it has named
/// the library to the linker.
proof fn linked_by_then(settings: SettingsModel, outcomes: Seq<OutcomeModel>)
    requires
        !settings.docs_only,
    ensures
        run(initial(settings), outcomes).settings == settings,
        past_linking_point(run(initial(settings), outcomes).stage) ==> has_linked(
            initial(settings),
            outcomes,
        ),
    decreases outcomes.len(),
{
    let start = initial(settings);
    if outcomes.len() > 0 {
        let shorter = outcomes.drop_last();
        linked_by_then(settings, shorter);
        // The stage before either names the library, or stands past that
        // point itself; in the latter case the witness of the shorter run serves.
        if past_linking_point(run(start, outcomes).stage) && !links_library(
            run(start, shorter).stage,
        ) {
            let i = choose|i: int|
                0 <= i <= shorter.len() && links_library(
                    (#[trigger] run(start, shorter.take(i))).stage,
                );
            assert(shorter.take(i) =~= outcomes.take(i));
        }
    }
}

/// A build that stands past the point for the declarations has had them
/// written.
proof fn bindings_written_by_then(settings: SettingsModel, outcomes: Seq<OutcomeModel>)
    ensures
        past_bindings_point(run(initial(settings), outcomes).stage) ==> has_written_bindings(
            initial(settings),
            outcomes,
        ),
    decreases outcomes.len(),
{
    let start = initial(settings);
    if outcomes.len() > 0 {
        let shorter = outcomes.drop_last();
        bindings_written_by_then(settings, shorter);
        // The stage before either writes the declarations, or stands past that
        // point itself; in the latter case the witness of the shorter run serves.
        if past_bindings_point(run(start, outcomes).stage) && !writes_bindings(
            run(start, shorter).stage,
        ) {
            let i = choose|i: int|
                0 <= i <= shorter.len() && writes_bindings(
                    (#[trigger] run(start, shorter.take(i))).stage,
                );
            assert(shorter.take(i) =~= outcomes.take(i));
        }
    }
}

/// A build that was to link a library and has finished has named a compiled
/// library to the linker on its way.
pub proof fn law_finished_build_has_linked(settings: SettingsModel, outcomes: Seq<OutcomeModel>)
    requires
        !settings.docs_only,
        run(initial(settings), outcomes).stage is Finished,
    ensures
        has_linked(initial(settings), outcomes),
{
    linked_by_then(settings, outcomes);
}

/// A build that has finished has had the declarations written on its way,
/// whichever strategy it followed.
pub proof fn law_finished_build_has_bindings(settings: SettingsModel, outcomes: Seq<OutcomeModel>)
    requires
        run(initial(settings), outcomes).stage is Finished,
    ensures
        has_written_bindings(initial(settings), outcomes),
{
    bindings_written_by_then(settings, outcomes);
}

/// A build that goes on is nearer to its end after any work than before.
proof fn runs_near_the_end(build: BuildModel, outcomes: Seq<OutcomeModel>)
    requires
        outcomes.len() > 0,
        !over(build.stage),
    ensures
        remaining(run(build, outcomes).stage) < remaining(build.stage),
    decreases outcomes.len(),
{
    if outcomes.len() > 1 {
        runs_near_the_end(build, outcomes.drop_last());
    }
    law_each_step_nears_the_end(run(build, outcomes.drop_last()), outcomes.last());
}

/// No piece of work is asked for twice: a build never stands at a stage at
/// which it stood before, unless it has ended there. No download tool is
/// tried a second time, and nothing is retried.
pub proof fn law_no_work_is_repeated(
    settings: SettingsModel,
    outcomes: Seq<OutcomeModel>,
    earlier: int,
    later: int,
)
    requires
        0 <= earlier < later <= outcomes.len(),
        !over(run(initial(settings), outcomes.take(earlier)).stage),
    ensures
        run(initial(settings), outcomes.take(later)).stage != run(
            initial(settings),
            outcomes.take(earlier),
        ).stage,
{
    let first = outcomes.take(earlier);
    let second = outcomes.subrange(earlier, later);
    assert(first + second =~= outcomes.take(later));
    law_runs_compose(initial(settings), first, second);
    runs_near_the_end(run(initial(settings), first), second);
}

/// A build that is told to build the sources downloads nothing: it uses a
/// bundle that an earlier build has left, or it builds.
pub proof fn law_forced_source_build_skips_download(
    settings: SettingsModel,
    outcomes: Seq<OutcomeModel>,
)
    requires
        settings.config.force_wasm_source,
    ensures
        !downloads(run(initial(settings), outcomes).stage),
        !(action_of(run(initial(settings), outcomes)) is Run),
    decreases outcomes.len(),
{
    if outcomes.len() > 0 {
        law_settings_are_kept(initial(settings), outcomes.drop_last());
        law_forced_source_build_skips_download(settings, outcomes.drop_last());
    }
}

/// A bundle is named to the linker only once its declarations were found: a
/// bundle that lacks them counts as no bundle.
pub proof fn law_bundle_is_linked_with_its_declarations(build: BuildModel, outcome: OutcomeModel)
    ensures
        step(build, outcome).stage is EmitPrebuiltLinks <==> build.stage is ProbeBundledBindings
            && outcome.positive(),
        build.stage is ProbeBundledBindings && !outcome.positive() ==> step(
            build,
            outcome,
        ).stage is AnnounceSources,
{
}

} // verus!
