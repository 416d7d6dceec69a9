//! Why assembling a network or replacing weights can fail.
use vstd::prelude::*;

verus! {

/// The reasons for which a builder step or a weight replacement is refused.
#[derive(Clone, Copy, Debug, PartialEq, Eq, Structural)]
pub enum NetworkError {
    /// An input layer was already set.
    DuplicateInputLayer,
    /// A layer was appended before the input layer was set.
    MissingInputLayer,
    /// A layer was appended after the output layer.
    OutputAlreadyFinalized,
    /// A weight matrix does not have the shape `(inputs + 1) × outputs`.
    LayerShapeMismatch,
}

impl NetworkError {
    /// A one-line description of the error.
    pub fn message(&self) -> String {
        match self {
            NetworkError::DuplicateInputLayer => String::from_str("You can only have one input layer."),
            NetworkError::MissingInputLayer => String::from_str("Input layer not created."),
            NetworkError::OutputAlreadyFinalized => String::from_str("Output layer was already created."),
            NetworkError::LayerShapeMismatch => String::from_str("Weight matrix does not match the layer's shape."),
        }
    }
}

} // verus!
