//! The typed handles of the library's noise generators.

use vstd::prelude::*;

pub mod value;

verus! {

/// A generator, wrapped so that generators of every kind can be combined in
/// the same way.
#[derive(Clone, Debug)]
pub struct GeneratorWrapper<T>(pub T);

} // verus!
