//! The activation kinds a layer can apply after its affine map.
use vstd::prelude::*;

verus! {

/// The nonlinearity a layer applies to each entry of its pre-activation.
#[derive(Clone, Copy, Debug, PartialEq, Eq, Structural)]
pub enum ActivationFunctions {
    Sigmoid,
    ReLU,
    Tanh,
}

/// Handle through which the activations of each kind are evaluated.
#[derive(Clone, Copy, Debug)]
pub struct ActivationFunctionMethods;

} // verus!
