use fastnoise2_build::bindings::{
    bindings_output_path, cached_bindings_path, clang_args, header_path, plan_generation,
    vendored_bindings_path, BindingsPlan,
};
use fastnoise2_build::path::BuildPath;

fn under(root: &str, parts: &[&str]) -> BuildPath {
    BuildPath { root: root.to_string(), parts: parts.iter().map(|p| p.to_string()).collect() }
}

#[test]
fn declarations_are_written_into_the_output_directory() {
    assert_eq!(bindings_output_path("/out"), under("/out", &["bindings.rs"]));
}

#[test]
fn vendored_declarations_lie_in_the_package_sources() {
    assert_eq!(vendored_bindings_path("/pkg"), under("/pkg", &["src", "bindings_vendored.rs"]));
}

#[test]
fn cached_declarations_have_a_fixed_name() {
    assert_eq!(cached_bindings_path("/cache"), under("/cache", &["bindings.rs"]));
    assert_eq!(cached_bindings_path(""), under("", &["bindings.rs"]));
}

#[test]
fn header_lies_in_the_include_tree() {
    assert_eq!(
        header_path(&under("/out", &[])),
        under("/out", &["include", "FastNoise", "FastNoise_C.h"])
    );
}

#[test]
fn generation_reads_the_header_and_writes_the_output() {
    assert_eq!(
        plan_generation(&under("/pkg", &["build", "FastNoise2"]), "/out"),
        BindingsPlan {
            header: under("/pkg", &["build", "FastNoise2", "include", "FastNoise", "FastNoise_C.h"]),
            include_dir: under("/pkg", &["build", "FastNoise2", "include", "FastNoise"]),
            output: under("/out", &["bindings.rs"]),
        }
    );
}

#[test]
fn clang_is_given_the_search_path_cpp_mode_and_no_exceptions() {
    assert_eq!(
        clang_args("/out/include/FastNoise"),
        vec![
            "-I/out/include/FastNoise".to_string(),
            "-xc++".to_string(),
            "-fno-exceptions".to_string(),
        ]
    );
}
