//! Handing a build plan to the `cmake` crate's configuration.

use vstd::prelude::*;
use crate::source_build::{Define, SourceBuildPlan};

verus! {

/// `cmake::Config`, the pending configuration of a CMake build. Nothing inside
/// it is visible here.
#[verifier::external_type_specification]
#[verifier::external_body]
pub struct ExConfig(cmake::Config);

/// The `-D` definitions that a configuration holds, as name and value, in the
/// order in which they were added.
pub uninterp spec fn config_defines(config: cmake::Config) -> Seq<(Seq<char>, Seq<char>)>;

/// The build type that a configuration was given, if it was given one.
pub uninterp spec fn config_profile(config: cmake::Config) -> Option<Seq<char>>;

/// Calls `cmake::Config::define`. Trusted: the definition is added behind the
/// ones that are there, and the build type stays as it is.
#[verifier::external_body]
fn add_define(config: &mut cmake::Config, name: &str, value: &str)
    ensures
        config_defines(*final(config)) == config_defines(*old(config)).push((name@, value@)),
        config_profile(*final(config)) == config_profile(*old(config)),
{
    config.define(name, value);
}

/// Calls `cmake::Config::profile`. Trusted: the build type is then the one
/// given, and the definitions stay as they are.
#[verifier::external_body]
fn set_profile(config: &mut cmake::Config, profile: &str)
    ensures
        config_profile(*final(config)) == Some(profile@),
        config_defines(*final(config)) == config_defines(*old(config)),
{
    config.profile(profile);
}

/// Gives `config` the build type of `plan` and adds the plan's definitions, in
/// their order, behind those that `config` holds already.
pub fn apply_plan(plan: &SourceBuildPlan, config: &mut cmake::Config)
    ensures
        config_profile(*final(config)) == Some(plan@.profile),
        config_defines(*final(config)) == config_defines(*old(config)) + plan@.defines,
{
    set_profile(config, plan.profile.as_str());
    let ghost before = config_defines(*old(config));
    let mut i: usize = 0;
    while i < plan.defines.len()
        invariant
            i <= plan.defines.len(),
            config_profile(*config) == Some(plan@.profile),
            config_defines(*config) == before + plan@.defines.take(i as int),
        decreases plan.defines.len() - i,
    {
        let entry: &Define = &plan.defines[i];
        add_define(config, entry.name.as_str(), entry.value.as_str());
        i = i + 1;
    }
}

} // verus!
