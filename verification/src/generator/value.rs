//! The generator of value noise.

use vstd::prelude::*;
use crate::generator::GeneratorWrapper;

verus! {

/// The generator of value noise. It has no parameters.
#[derive(Clone, Debug)]
pub struct Value;

impl Value {
    /// The name under which the native library knows this generator.
    pub fn node_name(&self) -> (name: &'static str)
        ensures
            name@ == "Value"@,
    {
        "Value"
    }
}

/// The generator of value noise.
pub fn value() -> (generator: GeneratorWrapper<Value>)
    ensures
        generator == GeneratorWrapper(Value),
{
    GeneratorWrapper(Value)
}

} // verus!
