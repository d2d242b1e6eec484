use fastnoise2_build::directive::{link_cpp_runtime, link_precompiled, watch_variables, Directive};
use fastnoise2_build::path::BuildPath;
use fastnoise2_build::target::{BuildTarget, CppRuntime};

fn target_of(architecture: &str, operating_system: &str, abi: &str) -> BuildTarget {
    BuildTarget {
        architecture: architecture.to_string(),
        operating_system: operating_system.to_string(),
        abi: abi.to_string(),
    }
}

#[test]
fn linux_links_the_gnu_runtime_whatever_the_abi() {
    assert_eq!(target_of("x86_64", "linux", "gnu").cpp_runtime(), CppRuntime::Gnu);
    assert_eq!(target_of("aarch64", "linux", "musl").cpp_runtime(), CppRuntime::Gnu);
    assert_eq!(target_of("x86_64", "linux", "").cpp_runtime(), CppRuntime::Gnu);
}

#[test]
fn windows_with_the_gnu_abi_links_the_gnu_runtime() {
    assert_eq!(target_of("x86_64", "windows", "gnu").cpp_runtime(), CppRuntime::Gnu);
}

#[test]
fn macos_and_freebsd_link_the_llvm_runtime() {
    assert_eq!(target_of("aarch64", "macos", "").cpp_runtime(), CppRuntime::Llvm);
    assert_eq!(target_of("x86_64", "freebsd", "").cpp_runtime(), CppRuntime::Llvm);
    assert_eq!(target_of("x86_64", "macos", "gnu").cpp_runtime(), CppRuntime::Llvm);
}

#[test]
fn the_whole_bsd_family_links_the_llvm_runtime() {
    for os in ["freebsd", "openbsd", "netbsd", "dragonfly"] {
        let target = target_of("x86_64", os, "");
        assert!(target.is_bsd());
        assert_eq!(target.cpp_runtime(), CppRuntime::Llvm);
        assert_eq!(
            link_cpp_runtime(&target),
            vec![Directive::LinkDynamic("c++".to_string())]
        );
        assert_eq!(target_of("aarch64", os, "gnu").cpp_runtime(), CppRuntime::Llvm);
    }
}

#[test]
fn only_the_bsd_family_is_bsd() {
    for os in ["linux", "macos", "windows", "bsd", "FreeBSD", "freebsd ", ""] {
        assert!(!target_of("x86_64", os, "").is_bsd());
    }
}

#[test]
fn windows_with_the_msvc_abi_names_no_runtime() {
    assert_eq!(target_of("x86_64", "windows", "msvc").cpp_runtime(), CppRuntime::Implicit);
}

#[test]
fn other_targets_are_not_recognized() {
    assert_eq!(target_of("aarch64", "android", "").cpp_runtime(), CppRuntime::Unrecognized);
    assert_eq!(target_of("x86_64", "windows", "").cpp_runtime(), CppRuntime::Unrecognized);
    assert_eq!(target_of("x86_64", "solaris", "").cpp_runtime(), CppRuntime::Unrecognized);
    assert_eq!(target_of("x86_64", "bsd", "").cpp_runtime(), CppRuntime::Unrecognized);
    assert_eq!(target_of("x86_64", "Linux", "gnu").cpp_runtime(), CppRuntime::Unrecognized);
    assert_eq!(target_of("x86_64", "", "msvc").cpp_runtime(), CppRuntime::Unrecognized);
}

#[test]
fn runtime_library_names() {
    assert_eq!(CppRuntime::Gnu.library_name(), Some("stdc++".to_string()));
    assert_eq!(CppRuntime::Llvm.library_name(), Some("c++".to_string()));
    assert_eq!(CppRuntime::Implicit.library_name(), None);
    assert_eq!(CppRuntime::Unrecognized.library_name(), None);
}

#[test]
fn release_flags_for_windows_msvc() {
    assert_eq!(target_of("x86_64", "windows", "msvc").release_flags(), "/MD /O2 /Ob2 /DNDEBUG");
}

#[test]
fn release_flags_for_every_other_target() {
    assert_eq!(target_of("x86_64", "windows", "gnu").release_flags(), "-O3 -DNDEBUG");
    assert_eq!(target_of("x86_64", "linux", "msvc").release_flags(), "-O3 -DNDEBUG");
    assert_eq!(target_of("aarch64", "macos", "").release_flags(), "-O3 -DNDEBUG");
    assert_eq!(target_of("wasm32", "emscripten", "").release_flags(), "-O3 -DNDEBUG");
}

#[test]
fn wasm_is_told_by_the_architecture_alone() {
    assert!(target_of("wasm32", "emscripten", "").is_wasm());
    assert!(target_of("wasm32", "linux", "gnu").is_wasm());
    assert!(!target_of("wasm64", "emscripten", "").is_wasm());
    assert!(!target_of("x86_64", "linux", "gnu").is_wasm());
    assert!(!target_of("", "", "").is_wasm());
}

#[test]
fn windows_msvc_needs_both_words() {
    assert!(target_of("x86_64", "windows", "msvc").is_windows_msvc());
    assert!(!target_of("x86_64", "windows", "gnu").is_windows_msvc());
    assert!(!target_of("x86_64", "linux", "msvc").is_windows_msvc());
}

#[test]
fn runtime_directive_for_linux() {
    assert_eq!(
        link_cpp_runtime(&target_of("x86_64", "linux", "gnu")),
        vec![Directive::LinkDynamic("stdc++".to_string())]
    );
}

#[test]
fn runtime_directive_for_macos() {
    assert_eq!(
        link_cpp_runtime(&target_of("aarch64", "macos", "")),
        vec![Directive::LinkDynamic("c++".to_string())]
    );
}

#[test]
fn no_runtime_directive_for_windows_msvc() {
    assert_eq!(link_cpp_runtime(&target_of("x86_64", "windows", "msvc")), Vec::new());
}

#[test]
fn unknown_target_gets_a_warning_and_no_link() {
    assert_eq!(
        link_cpp_runtime(&target_of("riscv64", "haiku", "")),
        vec![Directive::Warning("Unknown target for C++ stdlib linking".to_string())]
    );
}

#[test]
fn precompiled_directory_is_searched_and_the_library_linked() {
    assert_eq!(
        link_precompiled("/opt/lib"),
        vec![
            Directive::LinkSearch(BuildPath { root: "/opt/lib".to_string(), parts: Vec::new() }),
            Directive::LinkStatic("FastNoise".to_string()),
        ]
    );
}

#[test]
fn watched_variables_in_order() {
    assert_eq!(
        watch_variables(),
        vec![
            Directive::RerunIfEnvChanged("FASTNOISE2_SOURCE_DIR".to_string()),
            Directive::RerunIfEnvChanged("FASTNOISE2_LIB_DIR".to_string()),
            Directive::RerunIfEnvChanged("FASTNOISE2_BINDINGS_DIR".to_string()),
            Directive::RerunIfEnvChanged("EMSDK".to_string()),
        ]
    );
}

#[test]
fn directive_keywords() {
    let path = BuildPath::new("/x");
    assert_eq!(
        Directive::RerunIfEnvChanged("A".to_string()).keyword(),
        "cargo:rerun-if-env-changed="
    );
    assert_eq!(Directive::RerunIfChanged(path.clone()).keyword(), "cargo:rerun-if-changed=");
    assert_eq!(Directive::LinkSearch(path).keyword(), "cargo:rustc-link-search=native=");
    assert_eq!(Directive::LinkStatic("a".to_string()).keyword(), "cargo:rustc-link-lib=static=");
    assert_eq!(Directive::LinkDynamic("a".to_string()).keyword(), "cargo:rustc-link-lib=dylib=");
    assert_eq!(Directive::Warning("a".to_string()).keyword(), "cargo:warning=");
}

#[test]
fn joining_keeps_the_root_and_appends_the_part() {
    let base = BuildPath::new("/out");
    assert_eq!(base, BuildPath { root: "/out".to_string(), parts: Vec::new() });
    let joined = base.join("lib").join("x86");
    assert_eq!(
        joined,
        BuildPath { root: "/out".to_string(), parts: vec!["lib".to_string(), "x86".to_string()] }
    );
    assert_eq!(base, BuildPath { root: "/out".to_string(), parts: Vec::new() });
}
