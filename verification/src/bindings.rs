//! The declarations file: where it is written, where a ready one may lie, and
//! what the generator is told when none does.

use vstd::prelude::*;
use crate::path::{BuildPath, PathModel};
use crate::source_build::{headers_path, headers_root};

verus! {

/// The C header that describes the library.
pub const HEADER_NAME: &'static str = "FastNoise_C.h";

/// The name of the declarations file, in the output directory and in a cache.
pub const BINDINGS_NAME: &'static str = "bindings.rs";

/// The name of the declarations file that comes with the package.
pub const VENDORED_BINDINGS_NAME: &'static str = "bindings_vendored.rs";

/// The file that receives the declarations.
pub open spec fn bindings_output(out_dir: Seq<char>) -> PathModel {
    PathModel::rooted(out_dir).join(BINDINGS_NAME@)
}

/// The declarations that come with the package.
pub open spec fn vendored_bindings(manifest_dir: Seq<char>) -> PathModel {
    PathModel::rooted(manifest_dir).join("src"@).join(VENDORED_BINDINGS_NAME@)
}

/// The declarations in the cache directory `cache_dir`. The name is fixed: a
/// file of that name is taken, whatever it was generated from.
pub open spec fn cached_bindings(cache_dir: Seq<char>) -> PathModel {
    PathModel::rooted(cache_dir).join(BINDINGS_NAME@)
}

/// The header below the installation or source directory `artifact`.
pub open spec fn header_file(artifact: PathModel) -> PathModel {
    headers_root(artifact).join(HEADER_NAME@)
}

/// The mathematical content of a [`BindingsPlan`].
pub struct BindingsPlanModel {
    pub header: PathModel,
    pub include_dir: PathModel,
    pub output: PathModel,
}

/// What a fresh generation works on: the header to read, the directory that
/// its relative includes are searched in, and the file to write.
#[derive(Clone, Debug, PartialEq, Eq)]
pub struct BindingsPlan {
    pub header: BuildPath,
    pub include_dir: BuildPath,
    pub output: BuildPath,
}

impl View for BindingsPlan {
    type V = BindingsPlanModel;

    open spec fn view(&self) -> BindingsPlanModel {
        BindingsPlanModel {
            header: self.header@,
            include_dir: self.include_dir@,
            output: self.output@,
        }
    }
}

/// The generation for the library below `artifact`, written to `out_dir`.
pub open spec fn generation_for(artifact: PathModel, out_dir: Seq<char>) -> BindingsPlanModel {
    BindingsPlanModel {
        header: header_file(artifact),
        include_dir: headers_root(artifact),
        output: bindings_output(out_dir),
    }
}

/// The arguments for the C compiler front end: the header's own directory on
/// the search path, the header read as C++, and exceptions switched off.
pub open spec fn clang_args_for(include_dir: Seq<char>) -> Seq<Seq<char>> {
    seq!["-I"@ + include_dir, "-xc++"@, "-fno-exceptions"@]
}

/// The file that receives the declarations.
pub fn bindings_output_path(out_dir: &str) -> (path: BuildPath)
    ensures
        path@ == bindings_output(out_dir@),
{
    BuildPath::new(out_dir).join(BINDINGS_NAME)
}

/// The declarations that come with the package.
pub fn vendored_bindings_path(manifest_dir: &str) -> (path: BuildPath)
    ensures
        path@ == vendored_bindings(manifest_dir@),
{
    BuildPath::new(manifest_dir).join("src").join(VENDORED_BINDINGS_NAME)
}

/// The declarations in the cache directory `cache_dir`.
pub fn cached_bindings_path(cache_dir: &str) -> (path: BuildPath)
    ensures
        path@ == cached_bindings(cache_dir@),
{
    BuildPath::new(cache_dir).join(BINDINGS_NAME)
}

/// The header below the installation or source directory `artifact`.
pub fn header_path(artifact: &BuildPath) -> (path: BuildPath)
    ensures
        path@ == header_file(artifact@),
{
    headers_path(artifact).join(HEADER_NAME)
}

/// Plans a fresh generation for the library below `artifact`.
pub fn plan_generation(artifact: &BuildPath, out_dir: &str) -> (plan: BindingsPlan)
    ensures
        plan@ == generation_for(artifact@, out_dir@),
{
    BindingsPlan {
        header: header_path(artifact),
        include_dir: headers_path(artifact),
        output: bindings_output_path(out_dir),
    }
}

/// The arguments for the C compiler front end.
pub fn clang_args(include_dir: &str) -> (args: Vec<String>)
    ensures
        args.deep_view() == clang_args_for(include_dir@),
{
    let mut search = "-I".to_owned();
    search.append(include_dir);
    let mut args: Vec<String> = Vec::new();
    args.push(search);
    args.push("-xc++".to_owned());
    args.push("-fno-exceptions".to_owned());
    args
}

} // verus!
