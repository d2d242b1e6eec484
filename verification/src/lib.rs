//! Build-time acquisition of the FastNoise2 native library.
//!
//! Given a target platform and a set of preferences, the crate decides how a
//! compiled static library and its foreign-function declarations are obtained,
//! and which linker directives make the result usable. Every decision is a
//! verified function over plain values; the caller performs the file, process
//! and network work that the decisions ask for.
//!
//! - [`config`] reads the target and the overrides from the environment.
//! - [`strategy`] chooses among building the sources, linking a precompiled
//!   library, and fetching the prebuilt WebAssembly bundle.
//! - [`prebuilt`], [`source_build`] and [`bindings`] say where things lie and
//!   what the download tools, the build system and the generator are told;
//!   [`build_system`] and [`binding_generator`] hand that to the `cmake` and
//!   `bindgen` crates.
//! - [`target`] and [`directive`] hold the platform tables and the lines for
//!   the linker.
//! - [`orchestrator`] is the build as a machine: it names one piece of outside
//!   work at a time and moves on by how the work ended.
//! - [`laws`] proves what holds of every run of that machine.
//! - [`generator`] is the typed handle of the library's value-noise generator.

pub mod binding_generator;
pub mod bindings;
pub mod build_system;
pub mod config;
pub mod directive;
pub mod error;
pub mod generator;
pub mod laws;
pub mod orchestrator;
pub mod path;
pub mod prebuilt;
pub mod source_build;
pub mod strategy;
pub mod target;
