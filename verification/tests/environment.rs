use fastnoise2_build::config::{
    find, read_config, read_environment, AcquisitionConfig, BuildSettings, ConfigError, Variable,
};
use fastnoise2_build::target::BuildTarget;

fn env_of(pairs: &[(&str, &str)]) -> Vec<Variable> {
    pairs
        .iter()
        .map(|(name, value)| Variable { name: name.to_string(), value: value.to_string() })
        .collect()
}

fn required_variables() -> Vec<(&'static str, &'static str)> {
    vec![
        ("CARGO_CFG_TARGET_ARCH", "x86_64"),
        ("CARGO_CFG_TARGET_OS", "linux"),
        ("CARGO_CFG_TARGET_ENV", "gnu"),
        ("OUT_DIR", "/tmp/out"),
        ("CARGO_MANIFEST_DIR", "/work/pkg"),
    ]
}

fn without(name: &str) -> Vec<Variable> {
    let kept: Vec<(&str, &str)> =
        required_variables().into_iter().filter(|(n, _)| *n != name).collect();
    env_of(&kept)
}

#[test]
fn find_returns_the_value_of_the_named_variable() {
    let vars = env_of(&[("A", "1"), ("B", "2")]);
    assert_eq!(find(&vars, "B"), Some("2".to_string()));
    assert_eq!(find(&vars, "A"), Some("1".to_string()));
}

#[test]
fn find_returns_none_for_a_variable_that_is_not_set() {
    let vars = env_of(&[("A", "1")]);
    assert_eq!(find(&vars, "C"), None);
    assert_eq!(find(&Vec::new(), "A"), None);
}

#[test]
fn find_takes_the_first_of_two_variables_of_one_name() {
    let vars = env_of(&[("A", "first"), ("A", "second")]);
    assert_eq!(find(&vars, "A"), Some("first".to_string()));
}

#[test]
fn find_tells_names_apart_by_case_and_length() {
    let vars = env_of(&[("EMSDK_ROOT", "x"), ("emsdk", "y")]);
    assert_eq!(find(&vars, "EMSDK"), None);
}

#[test]
fn minimal_environment_gives_settings_without_overrides() {
    let settings = read_environment(&env_of(&required_variables()));
    assert_eq!(
        settings,
        Ok(BuildSettings {
            target: BuildTarget {
                architecture: "x86_64".to_string(),
                operating_system: "linux".to_string(),
                abi: "gnu".to_string(),
            },
            config: AcquisitionConfig {
                source_dir: None,
                lib_dir: None,
                bindings_cache_dir: None,
                force_source: false,
                force_wasm_source: false,
                sdk_root: None,
            },
            docs_only: false,
            out_dir: "/tmp/out".to_string(),
            manifest_dir: "/work/pkg".to_string(),
        })
    );
}

#[test]
fn every_override_is_read_from_its_own_variable() {
    let mut pairs = required_variables();
    pairs.push(("FASTNOISE2_SOURCE_DIR", "/src/fn2"));
    pairs.push(("FASTNOISE2_LIB_DIR", "/opt/lib"));
    pairs.push(("FASTNOISE2_BINDINGS_DIR", "/cache"));
    pairs.push(("CARGO_FEATURE_BUILD_FROM_SOURCE", "1"));
    pairs.push(("FASTNOISE2_BUILD_WASM_FROM_SOURCE", "yes"));
    pairs.push(("EMSDK", "/emsdk"));
    pairs.push(("DOCS_RS", "1"));
    let settings = read_environment(&env_of(&pairs)).unwrap();
    assert_eq!(
        settings.config,
        AcquisitionConfig {
            source_dir: Some("/src/fn2".to_string()),
            lib_dir: Some("/opt/lib".to_string()),
            bindings_cache_dir: Some("/cache".to_string()),
            force_source: true,
            force_wasm_source: true,
            sdk_root: Some("/emsdk".to_string()),
        }
    );
    assert!(settings.docs_only);
}

#[test]
fn an_override_set_to_the_empty_text_is_present() {
    let mut pairs = required_variables();
    pairs.push(("FASTNOISE2_LIB_DIR", ""));
    pairs.push(("CARGO_FEATURE_BUILD_FROM_SOURCE", ""));
    let settings = read_environment(&env_of(&pairs)).unwrap();
    assert_eq!(settings.config.lib_dir, Some(String::new()));
    assert!(settings.config.force_source);
    assert_eq!(settings.config.source_dir, None);
}

#[test]
fn one_override_does_not_imply_another() {
    let config = read_config(&env_of(&[("EMSDK", "/emsdk")]));
    assert_eq!(
        config,
        AcquisitionConfig {
            source_dir: None,
            lib_dir: None,
            bindings_cache_dir: None,
            force_source: false,
            force_wasm_source: false,
            sdk_root: Some("/emsdk".to_string()),
        }
    );
}

#[test]
fn missing_architecture_is_an_error() {
    assert_eq!(
        read_environment(&without("CARGO_CFG_TARGET_ARCH")),
        Err(ConfigError::MissingArchitecture)
    );
}

#[test]
fn missing_operating_system_is_an_error() {
    assert_eq!(
        read_environment(&without("CARGO_CFG_TARGET_OS")),
        Err(ConfigError::MissingOperatingSystem)
    );
}

#[test]
fn missing_abi_is_an_error() {
    assert_eq!(read_environment(&without("CARGO_CFG_TARGET_ENV")), Err(ConfigError::MissingAbi));
}

#[test]
fn missing_out_dir_is_an_error() {
    assert_eq!(read_environment(&without("OUT_DIR")), Err(ConfigError::MissingOutDir));
}

#[test]
fn missing_manifest_dir_is_an_error() {
    assert_eq!(
        read_environment(&without("CARGO_MANIFEST_DIR")),
        Err(ConfigError::MissingManifestDir)
    );
}

#[test]
fn the_first_missing_value_is_the_one_reported() {
    assert_eq!(read_environment(&Vec::new()), Err(ConfigError::MissingArchitecture));
    let vars = env_of(&[("CARGO_CFG_TARGET_ARCH", "wasm32"), ("OUT_DIR", "/o")]);
    assert_eq!(read_environment(&vars), Err(ConfigError::MissingOperatingSystem));
}

#[test]
fn an_empty_abi_is_a_value() {
    let mut vars = without("CARGO_CFG_TARGET_ENV");
    vars.push(Variable { name: "CARGO_CFG_TARGET_ENV".to_string(), value: String::new() });
    let settings = read_environment(&vars).unwrap();
    assert_eq!(settings.target.abi, "");
}

#[test]
fn each_error_names_its_variable() {
    assert_eq!(ConfigError::MissingArchitecture.variable(), "CARGO_CFG_TARGET_ARCH");
    assert_eq!(ConfigError::MissingOperatingSystem.variable(), "CARGO_CFG_TARGET_OS");
    assert_eq!(ConfigError::MissingAbi.variable(), "CARGO_CFG_TARGET_ENV");
    assert_eq!(ConfigError::MissingOutDir.variable(), "OUT_DIR");
    assert_eq!(ConfigError::MissingManifestDir.variable(), "CARGO_MANIFEST_DIR");
}
