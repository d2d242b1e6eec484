//! Handing a generation to the `bindgen` crate's builder.

use vstd::prelude::*;
use crate::bindings::{clang_args, clang_args_for};

verus! {

/// `bindgen::Builder`, the pending configuration of a generation. Nothing
/// inside it is visible here.
#[verifier::external_type_specification]
#[verifier::external_body]
pub struct ExBuilder(bindgen::Builder);

/// The input headers that a builder holds, in the order in which they were
/// added.
pub uninterp spec fn builder_headers(builder: bindgen::Builder) -> Seq<Seq<char>>;

/// The arguments that a builder passes straight through to Clang, in the order
/// in which they were added.
pub uninterp spec fn builder_clang_args(builder: bindgen::Builder) -> Seq<Seq<char>>;

/// Calls `bindgen::Builder::default`. Trusted: the new builder holds no input
/// header and no argument for Clang.
#[verifier::external_body]
fn new_builder() -> (builder: bindgen::Builder)
    ensures
        builder_headers(builder) == Seq::<Seq<char>>::empty(),
        builder_clang_args(builder) == Seq::<Seq<char>>::empty(),
{
    bindgen::Builder::default()
}

/// Calls `bindgen::Builder::header`. Trusted: the header is added behind the
/// ones that are there, and the arguments for Clang stay as they are.
#[verifier::external_body]
fn add_header(builder: bindgen::Builder, header: &str) -> (extended: bindgen::Builder)
    ensures
        builder_headers(extended) == builder_headers(builder).push(header@),
        builder_clang_args(extended) == builder_clang_args(builder),
{
    builder.header(header)
}

/// Calls `bindgen::Builder::clang_arg`. Trusted: the argument is added behind
/// the ones that are there, and the input headers stay as they are.
#[verifier::external_body]
fn add_clang_arg(builder: bindgen::Builder, arg: &str) -> (extended: bindgen::Builder)
    ensures
        builder_clang_args(extended) == builder_clang_args(builder).push(arg@),
        builder_headers(extended) == builder_headers(builder),
{
    builder.clang_arg(arg)
}

/// A builder for the one header `header`, with the arguments that the
/// generation of the library's declarations needs: the header's directory
/// `include_dir` on the search path, the header read as C++, no exceptions.
pub fn configure_generator(header: &str, include_dir: &str) -> (builder: bindgen::Builder)
    ensures
        builder_headers(builder) == seq![header@],
        builder_clang_args(builder) == clang_args_for(include_dir@),
{
    let mut builder = add_header(new_builder(), header);
    let args = clang_args(include_dir);
    let ghost wanted = args.deep_view();
    let mut i: usize = 0;
    while i < args.len()
        invariant
            i <= args.len(),
            wanted == args.deep_view(),
            builder_headers(builder) == seq![header@],
            builder_clang_args(builder) == wanted.take(i as int),
        decreases args.len() - i,
    {
        builder = add_clang_arg(builder, args[i].as_str());
        i = i + 1;
    }
    builder
}

} // verus!
