use fastnoise2_build::binding_generator::configure_generator;
use fastnoise2_build::build_system::apply_plan;
use fastnoise2_build::path::BuildPath;
use fastnoise2_build::source_build::{Define, SourceBuildPlan};

#[test]
fn configured_generator_reads_the_header_first() {
    let builder = configure_generator("/out/include/FastNoise/FastNoise_C.h", "/out/include/FastNoise");
    let flags = builder.command_line_flags();
    assert_eq!(flags[0], "/out/include/FastNoise/FastNoise_C.h");
}

#[test]
fn configured_generator_passes_the_arguments_to_clang_in_order() {
    let builder = configure_generator("/h/FastNoise_C.h", "/h");
    let flags = builder.command_line_flags();
    let split = flags.iter().position(|flag| flag == "--").unwrap();
    assert_eq!(
        flags[split + 1..].to_vec(),
        vec!["-I/h".to_string(), "-xc++".to_string(), "-fno-exceptions".to_string()]
    );
}

#[test]
fn configured_generator_has_one_header_only() {
    let builder = configure_generator("/h/FastNoise_C.h", "/h");
    let flags = builder.command_line_flags();
    assert!(!flags.iter().any(|flag| flag == "-include"));
    assert_eq!(flags.iter().filter(|flag| flag.as_str() == "/h/FastNoise_C.h").count(), 1);
}

#[test]
fn applied_plan_sets_the_build_type() {
    let plan = SourceBuildPlan {
        source_dir: BuildPath::new("sources"),
        profile: "Release".to_string(),
        defines: vec![Define { name: "BUILD_SHARED_LIBS".to_string(), value: "OFF".to_string() }],
    };
    let mut config = cmake::Config::new("sources");
    apply_plan(&plan, &mut config);
    assert_eq!(config.get_profile(), "Release");
}

#[test]
fn applied_plan_sets_the_build_type_it_is_given() {
    let plan = SourceBuildPlan {
        source_dir: BuildPath::new("sources"),
        profile: "MinSizeRel".to_string(),
        defines: Vec::new(),
    };
    let mut config = cmake::Config::new("sources");
    config.profile("Debug");
    apply_plan(&plan, &mut config);
    assert_eq!(config.get_profile(), "MinSizeRel");
}
