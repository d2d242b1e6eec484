//! The prebuilt WebAssembly bundle: where it is published, where it is kept,
//! and the commands that download and unpack it.

use vstd::prelude::*;
use crate::directive::{Directive, DirectiveModel, LIB_NAME};
use crate::path::{BuildPath, PathModel};

verus! {

/// The repository that publishes the bundle.
pub const PREBUILT_REPO: &'static str = "api-haus/fastnoise2-rs";

/// The release that holds the bundle.
pub const PREBUILT_TAG: &'static str = "wasm-prebuilt-v1";

/// The name of the bundle's archive, at the release and on disk.
pub const ARCHIVE_NAME: &'static str = "fastnoise2-wasm-prebuilt.tar.gz";

/// The directory below the output directory into which the bundle is unpacked.
pub const PREBUILT_DIR_NAME: &'static str = "wasm-prebuilt";

/// The library file that an unpacked bundle must hold.
pub const PREBUILT_LIBRARY_NAME: &'static str = "libFastNoise.a";

/// The declarations file that an unpacked bundle may hold.
pub const BUNDLED_BINDINGS_NAME: &'static str = "bindings.rs";

/// The address of the archive of release `tag` of repository `repo`.
pub open spec fn release_url(repo: Seq<char>, tag: Seq<char>) -> Seq<char> {
    "https://github.com/"@ + repo + "/releases/download/"@ + tag + "/"@ + ARCHIVE_NAME@
}

/// The directory into which the bundle is unpacked.
pub open spec fn prebuilt_root(out_dir: Seq<char>) -> PathModel {
    PathModel::rooted(out_dir).join(PREBUILT_DIR_NAME@)
}

/// The library file whose presence alone tells that the bundle is there.
pub open spec fn prebuilt_library(out_dir: Seq<char>) -> PathModel {
    prebuilt_root(out_dir).join(PREBUILT_LIBRARY_NAME@)
}

/// The declarations file of the unpacked bundle.
pub open spec fn bundled_bindings(out_dir: Seq<char>) -> PathModel {
    prebuilt_root(out_dir).join(BUNDLED_BINDINGS_NAME@)
}

/// The file to which the archive is downloaded.
pub open spec fn archive_file(out_dir: Seq<char>) -> PathModel {
    PathModel::rooted(out_dir).join(ARCHIVE_NAME@)
}

/// The mathematical content of an [`Arg`].
pub enum ArgModel {
    Text(Seq<char>),
    Path(PathModel),
}

/// One argument of a command: a text as it stands, or a location.
#[derive(Clone, Debug, PartialEq, Eq)]
pub enum Arg {
    Text(String),
    Path(BuildPath),
}

impl DeepView for Arg {
    type V = ArgModel;

    open spec fn deep_view(&self) -> ArgModel {
        match self {
            Arg::Text(text) => ArgModel::Text(text@),
            Arg::Path(path) => ArgModel::Path(path@),
        }
    }
}

/// The mathematical content of a [`Command`].
pub struct CommandModel {
    pub program: Seq<char>,
    pub args: Seq<ArgModel>,
}

/// An external program and its arguments. The command succeeds when the
/// program could be started and left with exit code zero.
#[derive(Clone, Debug, PartialEq, Eq)]
pub struct Command {
    pub program: String,
    pub args: Vec<Arg>,
}

impl View for Command {
    type V = CommandModel;

    open spec fn view(&self) -> CommandModel {
        CommandModel { program: self.program@, args: self.args.deep_view() }
    }
}

/// The download tools, in the order in which they are tried.
#[derive(Clone, Copy, Debug, PartialEq, Eq, Structural)]
pub enum DownloadTool {
    Curl,
    Wget,
}

impl DownloadTool {
    /// The tool to try when this one has failed, if one is left.
    pub open spec fn successor(self) -> Option<DownloadTool> {
        match self {
            DownloadTool::Curl => Some(DownloadTool::Wget),
            DownloadTool::Wget => None,
        }
    }

    /// The tool to try when this one has failed, if one is left.
    pub fn next(self) -> (tool: Option<DownloadTool>)
        ensures
            tool == self.successor(),
    {
        match self {
            DownloadTool::Curl => Some(DownloadTool::Wget),
            DownloadTool::Wget => None,
        }
    }
}

/// The command by which `tool` downloads the archive at `url` into the output
/// directory.
pub open spec fn download_command(tool: DownloadTool, out_dir: Seq<char>, url: Seq<char>)
    -> CommandModel {
    match tool {
        DownloadTool::Curl => CommandModel {
            program: "curl"@,
            args: seq![
                ArgModel::Text("-fsSL"@),
                ArgModel::Text("-o"@),
                ArgModel::Path(archive_file(out_dir)),
                ArgModel::Text(url),
            ],
        },
        DownloadTool::Wget => CommandModel {
            program: "wget"@,
            args: seq![
                ArgModel::Text("-q"@),
                ArgModel::Text("-O"@),
                ArgModel::Path(archive_file(out_dir)),
                ArgModel::Text(url),
            ],
        },
    }
}

/// The command that unpacks the downloaded archive into the bundle's directory.
pub open spec fn extract_command(out_dir: Seq<char>) -> CommandModel {
    CommandModel {
        program: "tar"@,
        args: seq![
            ArgModel::Text("-xzf"@),
            ArgModel::Path(archive_file(out_dir)),
            ArgModel::Text("-C"@),
            ArgModel::Path(prebuilt_root(out_dir)),
        ],
    }
}

/// The directives for an unpacked bundle: its directory is searched, and the
/// library is linked statically.
pub open spec fn prebuilt_links(out_dir: Seq<char>) -> Seq<DirectiveModel> {
    seq![
        DirectiveModel::LinkSearch(prebuilt_root(out_dir)),
        DirectiveModel::LinkStatic(LIB_NAME@),
    ]
}

/// The address of the archive of release `tag` of repository `repo`.
pub fn archive_url(repo: &str, tag: &str) -> (url: String)
    ensures
        url@ == release_url(repo@, tag@),
{
    let mut url = "https://github.com/".to_owned();
    url.append(repo);
    url.append("/releases/download/");
    url.append(tag);
    url.append("/");
    url.append(ARCHIVE_NAME);
    url
}

/// The address of the bundle.
pub fn prebuilt_url() -> (url: String)
    ensures
        url@ == release_url(PREBUILT_REPO@, PREBUILT_TAG@),
{
    archive_url(PREBUILT_REPO, PREBUILT_TAG)
}

/// The directory into which the bundle is unpacked.
pub fn prebuilt_dir(out_dir: &str) -> (path: BuildPath)
    ensures
        path@ == prebuilt_root(out_dir@),
{
    BuildPath::new(out_dir).join(PREBUILT_DIR_NAME)
}

/// The library file whose presence alone tells that the bundle is there.
pub fn prebuilt_library_path(out_dir: &str) -> (path: BuildPath)
    ensures
        path@ == prebuilt_library(out_dir@),
{
    prebuilt_dir(out_dir).join(PREBUILT_LIBRARY_NAME)
}

/// The declarations file of the unpacked bundle.
pub fn bundled_bindings_path(out_dir: &str) -> (path: BuildPath)
    ensures
        path@ == bundled_bindings(out_dir@),
{
    prebuilt_dir(out_dir).join(BUNDLED_BINDINGS_NAME)
}

/// The file to which the archive is downloaded.
pub fn archive_path(out_dir: &str) -> (path: BuildPath)
    ensures
        path@ == archive_file(out_dir@),
{
    BuildPath::new(out_dir).join(ARCHIVE_NAME)
}

/// The command by which `tool` downloads the archive at `url`.
pub fn download_with(tool: DownloadTool, out_dir: &str, url: &str) -> (command: Command)
    ensures
        command@ == download_command(tool, out_dir@, url@),
{
    let mut args: Vec<Arg> = Vec::new();
    let program = match tool {
        DownloadTool::Curl => {
            args.push(Arg::Text("-fsSL".to_owned()));
            args.push(Arg::Text("-o".to_owned()));
            "curl".to_owned()
        },
        DownloadTool::Wget => {
            args.push(Arg::Text("-q".to_owned()));
            args.push(Arg::Text("-O".to_owned()));
            "wget".to_owned()
        },
    };
    args.push(Arg::Path(archive_path(out_dir)));
    args.push(Arg::Text(url.to_owned()));
    let command = Command { program, args };
    assert(command.args.deep_view() =~= download_command(tool, out_dir@, url@).args);
    command
}

/// The command that unpacks the downloaded archive.
pub fn extract_archive(out_dir: &str) -> (command: Command)
    ensures
        command@ == extract_command(out_dir@),
{
    let mut args: Vec<Arg> = Vec::new();
    args.push(Arg::Text("-xzf".to_owned()));
    args.push(Arg::Path(archive_path(out_dir)));
    args.push(Arg::Text("-C".to_owned()));
    args.push(Arg::Path(prebuilt_dir(out_dir)));
    let command = Command { program: "tar".to_owned(), args };
    assert(command.args.deep_view() =~= extract_command(out_dir@).args);
    command
}

/// The directives for an unpacked bundle.
pub fn link_prebuilt(out_dir: &str) -> (directives: Vec<Directive>)
    ensures
        directives.deep_view() == prebuilt_links(out_dir@),
{
    let mut directives: Vec<Directive> = Vec::new();
    directives.push(Directive::LinkSearch(prebuilt_dir(out_dir)));
    directives.push(Directive::LinkStatic(LIB_NAME.to_owned()));
    directives
}

} // verus!
