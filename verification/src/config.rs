//! The preferences of a build and the reading of them from the environment.

use vstd::prelude::*;
use crate::target::{BuildTarget, TargetModel};

verus! {

/// Names the directory of the library's sources.
pub const SOURCE_DIR_KEY: &'static str = "FASTNOISE2_SOURCE_DIR";

/// Names a directory that holds an already compiled library.
pub const LIB_DIR_KEY: &'static str = "FASTNOISE2_LIB_DIR";

/// Names a directory in which generated declarations are kept between builds.
pub const BINDINGS_CACHE_KEY: &'static str = "FASTNOISE2_BINDINGS_DIR";

/// Set when the library is to be built from its sources whatever else is set.
pub const FORCE_SOURCE_KEY: &'static str = "CARGO_FEATURE_BUILD_FROM_SOURCE";

/// Set when a WebAssembly build is not to download the prebuilt bundle.
pub const FORCE_WASM_SOURCE_KEY: &'static str = "FASTNOISE2_BUILD_WASM_FROM_SOURCE";

/// Names the root of the WebAssembly toolchain.
pub const SDK_ROOT_KEY: &'static str = "EMSDK";

/// Set when only the declarations are wanted.
pub const DOCS_ONLY_KEY: &'static str = "DOCS_RS";

/// Names the target architecture.
pub const ARCHITECTURE_KEY: &'static str = "CARGO_CFG_TARGET_ARCH";

/// Names the target operating system.
pub const OPERATING_SYSTEM_KEY: &'static str = "CARGO_CFG_TARGET_OS";

/// Names the target ABI.
pub const ABI_KEY: &'static str = "CARGO_CFG_TARGET_ENV";

/// Names the directory that receives everything the build produces.
pub const OUT_DIR_KEY: &'static str = "OUT_DIR";

/// Names the directory of the package being built.
pub const MANIFEST_DIR_KEY: &'static str = "CARGO_MANIFEST_DIR";

/// The mathematical content of an [`AcquisitionConfig`].
pub struct ConfigModel {
    pub source_dir: Option<Seq<char>>,
    pub lib_dir: Option<Seq<char>>,
    pub bindings_cache_dir: Option<Seq<char>>,
    pub force_source: bool,
    pub force_wasm_source: bool,
    pub sdk_root: Option<Seq<char>>,
}

/// The overrides of a build. Each is present or absent on its own; an override
/// that is set to the empty text is present.
#[derive(Clone, Debug, PartialEq, Eq)]
pub struct AcquisitionConfig {
    pub source_dir: Option<String>,
    pub lib_dir: Option<String>,
    pub bindings_cache_dir: Option<String>,
    pub force_source: bool,
    pub force_wasm_source: bool,
    pub sdk_root: Option<String>,
}

impl View for AcquisitionConfig {
    type V = ConfigModel;

    open spec fn view(&self) -> ConfigModel {
        ConfigModel {
            source_dir: self.source_dir.deep_view(),
            lib_dir: self.lib_dir.deep_view(),
            bindings_cache_dir: self.bindings_cache_dir.deep_view(),
            force_source: self.force_source,
            force_wasm_source: self.force_wasm_source,
            sdk_root: self.sdk_root.deep_view(),
        }
    }
}

/// The mathematical content of a [`BuildSettings`].
pub struct SettingsModel {
    pub target: TargetModel,
    pub config: ConfigModel,
    pub docs_only: bool,
    pub out_dir: Seq<char>,
    pub manifest_dir: Seq<char>,
}

/// Everything a build is told: its target, its overrides, whether only the
/// declarations are wanted, and the two directories it works in.
#[derive(Clone, Debug, PartialEq, Eq)]
pub struct BuildSettings {
    pub target: BuildTarget,
    pub config: AcquisitionConfig,
    pub docs_only: bool,
    pub out_dir: String,
    pub manifest_dir: String,
}

impl View for BuildSettings {
    type V = SettingsModel;

    open spec fn view(&self) -> SettingsModel {
        SettingsModel {
            target: self.target@,
            config: self.config@,
            docs_only: self.docs_only,
            out_dir: self.out_dir@,
            manifest_dir: self.manifest_dir@,
        }
    }
}

/// One variable of the environment.
#[derive(Clone, Debug, PartialEq, Eq)]
pub struct Variable {
    pub name: String,
    pub value: String,
}

impl DeepView for Variable {
    type V = (Seq<char>, Seq<char>);

    open spec fn deep_view(&self) -> (Seq<char>, Seq<char>) {
        (self.name@, self.value@)
    }
}

/// A value that the build cannot do without and that the environment lacks.
#[derive(Clone, Copy, Debug, PartialEq, Eq, Structural)]
pub enum ConfigError {
    /// The target architecture is not set.
    MissingArchitecture,
    /// The target operating system is not set.
    MissingOperatingSystem,
    /// The target ABI is not set.
    MissingAbi,
    /// The output directory is not set.
    MissingOutDir,
    /// The directory of the package is not set.
    MissingManifestDir,
}

impl ConfigError {
    /// The name of the variable that is missing.
    pub open spec fn key(self) -> Seq<char> {
        match self {
            ConfigError::MissingArchitecture => ARCHITECTURE_KEY@,
            ConfigError::MissingOperatingSystem => OPERATING_SYSTEM_KEY@,
            ConfigError::MissingAbi => ABI_KEY@,
            ConfigError::MissingOutDir => OUT_DIR_KEY@,
            ConfigError::MissingManifestDir => MANIFEST_DIR_KEY@,
        }
    }

    /// The name of the variable that is missing.
    pub fn variable(self) -> (name: &'static str)
        ensures
            name@ == self.key(),
    {
        match self {
            ConfigError::MissingArchitecture => ARCHITECTURE_KEY,
            ConfigError::MissingOperatingSystem => OPERATING_SYSTEM_KEY,
            ConfigError::MissingAbi => ABI_KEY,
            ConfigError::MissingOutDir => OUT_DIR_KEY,
            ConfigError::MissingManifestDir => MANIFEST_DIR_KEY,
        }
    }
}

/// The value of the first variable called `name`, if there is one.
pub open spec fn lookup(vars: Seq<(Seq<char>, Seq<char>)>, name: Seq<char>) -> Option<Seq<char>>
    decreases vars.len(),
{
    if vars.len() == 0 {
        None
    } else if vars[0].0 == name {
        Some(vars[0].1)
    } else {
        lookup(vars.drop_first(), name)
    }
}

/// Whether the variable at `index` is the first one called `name`.
pub open spec fn first_named(vars: Seq<(Seq<char>, Seq<char>)>, name: Seq<char>, index: int)
    -> bool {
    &&& 0 <= index < vars.len()
    &&& vars[index].0 == name
    &&& forall|earlier: int| 0 <= earlier < index ==> (#[trigger] vars[earlier]).0 != name
}

/// What is found is the value of the first variable of that name, and nothing
/// is found only where no variable has that name.
pub proof fn law_lookup_finds_the_first(vars: Seq<(Seq<char>, Seq<char>)>, name: Seq<char>)
    ensures
        match lookup(vars, name) {
            Some(value) => exists|index: int| #[trigger]
                first_named(vars, name, index) && vars[index].1 == value,
            None => forall|index: int|
                0 <= index < vars.len() ==> (#[trigger] vars[index]).0 != name,
        },
    decreases vars.len(),
{
    if vars.len() > 0 {
        if vars[0].0 == name {
            assert(first_named(vars, name, 0));
        } else {
            let rest = vars.drop_first();
            law_lookup_finds_the_first(rest, name);
            match lookup(rest, name) {
                Some(value) => {
                    let index = choose|index: int| #[trigger]
                        first_named(rest, name, index) && rest[index].1 == value;
                    assert forall|earlier: int| 0 <= earlier < index + 1 implies
                        (#[trigger] vars[earlier]).0 != name by {
                        if earlier > 0 {
                            assert(rest[earlier - 1] == vars[earlier]);
                        }
                    }
                    assert(first_named(vars, name, index + 1));
                },
                None => {
                    assert forall|index: int| 0 <= index < vars.len() implies
                        (#[trigger] vars[index]).0 != name by {
                        if index > 0 {
                            assert(rest[index - 1] == vars[index]);
                        }
                    }
                },
            }
        }
    }
}

/// The overrides that `vars` holds.
pub open spec fn config_of(vars: Seq<(Seq<char>, Seq<char>)>) -> ConfigModel {
    ConfigModel {
        source_dir: lookup(vars, SOURCE_DIR_KEY@),
        lib_dir: lookup(vars, LIB_DIR_KEY@),
        bindings_cache_dir: lookup(vars, BINDINGS_CACHE_KEY@),
        force_source: lookup(vars, FORCE_SOURCE_KEY@) is Some,
        force_wasm_source: lookup(vars, FORCE_WASM_SOURCE_KEY@) is Some,
        sdk_root: lookup(vars, SDK_ROOT_KEY@),
    }
}

/// The settings that `vars` holds, or the first required value that is missing.
pub open spec fn settings_of(vars: Seq<(Seq<char>, Seq<char>)>) -> Result<
    SettingsModel,
    ConfigError,
> {
    if lookup(vars, ARCHITECTURE_KEY@) is None {
        Err(ConfigError::MissingArchitecture)
    } else if lookup(vars, OPERATING_SYSTEM_KEY@) is None {
        Err(ConfigError::MissingOperatingSystem)
    } else if lookup(vars, ABI_KEY@) is None {
        Err(ConfigError::MissingAbi)
    } else if lookup(vars, OUT_DIR_KEY@) is None {
        Err(ConfigError::MissingOutDir)
    } else if lookup(vars, MANIFEST_DIR_KEY@) is None {
        Err(ConfigError::MissingManifestDir)
    } else {
        Ok(
            SettingsModel {
                target: TargetModel {
                    architecture: lookup(vars, ARCHITECTURE_KEY@)->0,
                    operating_system: lookup(vars, OPERATING_SYSTEM_KEY@)->0,
                    abi: lookup(vars, ABI_KEY@)->0,
                },
                config: config_of(vars),
                docs_only: lookup(vars, DOCS_ONLY_KEY@) is Some,
                out_dir: lookup(vars, OUT_DIR_KEY@)->0,
                manifest_dir: lookup(vars, MANIFEST_DIR_KEY@)->0,
            },
        )
    }
}

/// Skipping entries that are not called `name` does not change what is found.
proof fn lookup_skips(vars: Seq<(Seq<char>, Seq<char>)>, name: Seq<char>, i: int)
    requires
        0 <= i < vars.len(),
        vars[i].0 != name,
    ensures
        lookup(vars.skip(i), name) == lookup(vars.skip(i + 1), name),
{
    assert(vars.skip(i).drop_first() =~= vars.skip(i + 1));
}

/// The value of the first variable called `name`, if there is one.
pub fn find(vars: &Vec<Variable>, name: &str) -> (value: Option<String>)
    ensures
        value.deep_view() == lookup(vars.deep_view(), name@),
{
    let ghost all = vars.deep_view();
    let wanted = name.to_owned();
    let mut i: usize = 0;
    assert(all.skip(0) =~= all);
    while i < vars.len()
        invariant
            i <= vars.len(),
            all == vars.deep_view(),
            wanted@ == name@,
            lookup(all, name@) == lookup(all.skip(i as int), name@),
        decreases vars.len() - i,
    {
        if vars[i].name == wanted {
            return Some(vars[i].value.clone());
        }
        proof {
            lookup_skips(all, name@, i as int);
        }
        i = i + 1;
    }
    None
}

/// Reads the overrides from the environment.
pub fn read_config(vars: &Vec<Variable>) -> (config: AcquisitionConfig)
    ensures
        config@ == config_of(vars.deep_view()),
{
    AcquisitionConfig {
        source_dir: find(vars, SOURCE_DIR_KEY),
        lib_dir: find(vars, LIB_DIR_KEY),
        bindings_cache_dir: find(vars, BINDINGS_CACHE_KEY),
        force_source: find(vars, FORCE_SOURCE_KEY).is_some(),
        force_wasm_source: find(vars, FORCE_WASM_SOURCE_KEY).is_some(),
        sdk_root: find(vars, SDK_ROOT_KEY),
    }
}

/// Reads the settings of a build from the environment. A variable that is not
/// set is absent, never the empty text. The target's architecture, operating
/// system and ABI and the two working directories are required: the first of
/// them that is missing is the error.
pub fn read_environment(vars: &Vec<Variable>) -> (settings: Result<BuildSettings, ConfigError>)
    ensures
        match settings {
            Ok(s) => settings_of(vars.deep_view()) == Ok::<SettingsModel, ConfigError>(s@),
            Err(e) => settings_of(vars.deep_view()) == Err::<SettingsModel, ConfigError>(e),
        },
{
    let architecture = match find(vars, ARCHITECTURE_KEY) {
        Some(text) => text,
        None => { return Err(ConfigError::MissingArchitecture); },
    };
    let operating_system = match find(vars, OPERATING_SYSTEM_KEY) {
        Some(text) => text,
        None => { return Err(ConfigError::MissingOperatingSystem); },
    };
    let abi = match find(vars, ABI_KEY) {
        Some(text) => text,
        None => { return Err(ConfigError::MissingAbi); },
    };
    let out_dir = match find(vars, OUT_DIR_KEY) {
        Some(text) => text,
        None => { return Err(ConfigError::MissingOutDir); },
    };
    let manifest_dir = match find(vars, MANIFEST_DIR_KEY) {
        Some(text) => text,
        None => { return Err(ConfigError::MissingManifestDir); },
    };
    Ok(
        BuildSettings {
            target: BuildTarget { architecture, operating_system, abi },
            config: read_config(vars),
            docs_only: find(vars, DOCS_ONLY_KEY).is_some(),
            out_dir,
            manifest_dir,
        },
    )
}

} // verus!
