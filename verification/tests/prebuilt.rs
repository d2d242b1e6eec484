use fastnoise2_build::directive::Directive;
use fastnoise2_build::path::BuildPath;
use fastnoise2_build::prebuilt::{
    archive_path, archive_url, bundled_bindings_path, download_with, extract_archive,
    link_prebuilt, prebuilt_dir, prebuilt_library_path, prebuilt_url, Arg, Command, DownloadTool,
};

fn below(root: &str, parts: &[&str]) -> BuildPath {
    BuildPath { root: root.to_string(), parts: parts.iter().map(|p| p.to_string()).collect() }
}

const URL: &str =
    "https://github.com/api-haus/fastnoise2-rs/releases/download/wasm-prebuilt-v1/fastnoise2-wasm-prebuilt.tar.gz";

#[test]
fn bundle_address() {
    assert_eq!(prebuilt_url(), URL);
}

#[test]
fn address_is_made_of_repository_and_tag() {
    assert_eq!(
        archive_url("owner/repo", "v2"),
        "https://github.com/owner/repo/releases/download/v2/fastnoise2-wasm-prebuilt.tar.gz"
    );
    assert_eq!(
        archive_url("", ""),
        "https://github.com//releases/download//fastnoise2-wasm-prebuilt.tar.gz"
    );
}

#[test]
fn bundle_locations() {
    assert_eq!(prebuilt_dir("/out"), below("/out", &["wasm-prebuilt"]));
    assert_eq!(prebuilt_library_path("/out"), below("/out", &["wasm-prebuilt", "libFastNoise.a"]));
    assert_eq!(bundled_bindings_path("/out"), below("/out", &["wasm-prebuilt", "bindings.rs"]));
    assert_eq!(archive_path("/out"), below("/out", &["fastnoise2-wasm-prebuilt.tar.gz"]));
}

#[test]
fn curl_command() {
    assert_eq!(
        download_with(DownloadTool::Curl, "/out", URL),
        Command {
            program: "curl".to_string(),
            args: vec![
                Arg::Text("-fsSL".to_string()),
                Arg::Text("-o".to_string()),
                Arg::Path(below("/out", &["fastnoise2-wasm-prebuilt.tar.gz"])),
                Arg::Text(URL.to_string()),
            ],
        }
    );
}

#[test]
fn wget_command() {
    assert_eq!(
        download_with(DownloadTool::Wget, "/out", URL),
        Command {
            program: "wget".to_string(),
            args: vec![
                Arg::Text("-q".to_string()),
                Arg::Text("-O".to_string()),
                Arg::Path(below("/out", &["fastnoise2-wasm-prebuilt.tar.gz"])),
                Arg::Text(URL.to_string()),
            ],
        }
    );
}

#[test]
fn extract_command_unpacks_into_the_bundle_directory() {
    assert_eq!(
        extract_archive("/out"),
        Command {
            program: "tar".to_string(),
            args: vec![
                Arg::Text("-xzf".to_string()),
                Arg::Path(below("/out", &["fastnoise2-wasm-prebuilt.tar.gz"])),
                Arg::Text("-C".to_string()),
                Arg::Path(below("/out", &["wasm-prebuilt"])),
            ],
        }
    );
}

#[test]
fn curl_is_tried_before_wget_and_nothing_after() {
    assert_eq!(DownloadTool::Curl.next(), Some(DownloadTool::Wget));
    assert_eq!(DownloadTool::Wget.next(), None);
}

#[test]
fn bundle_directory_is_searched_and_the_library_linked() {
    assert_eq!(
        link_prebuilt("/out"),
        vec![
            Directive::LinkSearch(below("/out", &["wasm-prebuilt"])),
            Directive::LinkStatic("FastNoise".to_string()),
        ]
    );
}
