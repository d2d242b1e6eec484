use fastnoise2_build::config::{AcquisitionConfig, BuildSettings};
use fastnoise2_build::strategy::{select_strategy, Strategy};
use fastnoise2_build::target::BuildTarget;

fn plain_settings(architecture: &str) -> BuildSettings {
    BuildSettings {
        target: BuildTarget {
            architecture: architecture.to_string(),
            operating_system: "linux".to_string(),
            abi: "gnu".to_string(),
        },
        config: AcquisitionConfig {
            source_dir: None,
            lib_dir: None,
            bindings_cache_dir: None,
            force_source: false,
            force_wasm_source: false,
            sdk_root: None,
        },
        docs_only: false,
        out_dir: "/out".to_string(),
        manifest_dir: "/pkg".to_string(),
    }
}

#[test]
fn nothing_set_falls_back_to_the_source_build() {
    assert_eq!(select_strategy(&plain_settings("x86_64")), Strategy::SourceBuild);
}

#[test]
fn precompiled_directory_is_linked_without_a_build() {
    let mut settings = plain_settings("x86_64");
    settings.config.lib_dir = Some("/opt/lib".to_string());
    assert_eq!(select_strategy(&settings), Strategy::PrecompiledLink);
}

#[test]
fn forced_source_build_wins_over_the_precompiled_directory() {
    let mut settings = plain_settings("x86_64");
    settings.config.lib_dir = Some("/opt/lib".to_string());
    settings.config.force_source = true;
    assert_eq!(select_strategy(&settings), Strategy::SourceBuild);
}

#[test]
fn wasm_wins_over_every_native_override() {
    let mut settings = plain_settings("wasm32");
    settings.config.lib_dir = Some("/opt/lib".to_string());
    settings.config.force_source = true;
    assert_eq!(select_strategy(&settings), Strategy::WasmPrebuilt);
    assert_eq!(select_strategy(&plain_settings("wasm32")), Strategy::WasmPrebuilt);
}

#[test]
fn docs_only_wins_over_everything() {
    let mut settings = plain_settings("wasm32");
    settings.docs_only = true;
    settings.config.force_source = true;
    settings.config.lib_dir = Some("/opt/lib".to_string());
    assert_eq!(select_strategy(&settings), Strategy::BindingsOnly);
    let mut native = plain_settings("x86_64");
    native.docs_only = true;
    assert_eq!(select_strategy(&native), Strategy::BindingsOnly);
}

#[test]
fn only_native_strategies_link_the_cpp_runtime() {
    assert!(Strategy::SourceBuild.needs_cpp_runtime());
    assert!(Strategy::PrecompiledLink.needs_cpp_runtime());
    assert!(!Strategy::WasmPrebuilt.needs_cpp_runtime());
    assert!(!Strategy::BindingsOnly.needs_cpp_runtime());
}

#[test]
fn no_wasm_settings_select_a_strategy_that_links_the_cpp_runtime() {
    for docs_only in [false, true] {
        for force_source in [false, true] {
            for lib_dir in [None, Some("/opt/lib".to_string())] {
                let mut settings = plain_settings("wasm32");
                settings.docs_only = docs_only;
                settings.config.force_source = force_source;
                settings.config.lib_dir = lib_dir;
                assert!(!select_strategy(&settings).needs_cpp_runtime());
            }
        }
    }
}
