use fastnoise2_build::generator::value::{value, Value};
use fastnoise2_build::generator::GeneratorWrapper;

#[test]
fn value_generator_is_wrapped() {
    let GeneratorWrapper(inner) = value();
    assert_eq!(inner.node_name(), "Value");
}

#[test]
fn value_generator_can_be_cloned_and_shown() {
    let generator = value();
    let copy = generator.clone();
    assert_eq!(format!("{:?}", copy), "GeneratorWrapper(Value)");
    assert_eq!(format!("{:?}", Value), "Value");
}
