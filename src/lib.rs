//! A small feed-forward network for multilayer perceptrons.
//!
//! The crate keeps the structure of a network: dense matrices with their
//! shapes, layers with the shape of their weight matrices, the builder that
//! chains layers together and the driver of forward propagation. The numeric
//! element type is a parameter, and the arithmetic on it is supplied by the
//! caller.
pub mod activation_functions;
pub mod error;
pub mod layer;
pub mod matrix;
pub mod network;

pub use activation_functions::{ActivationFunctionMethods, ActivationFunctions};
pub use error::NetworkError;
pub use layer::{Layer, LayerModel};
pub use matrix::Matrix;
pub use network::{NetworkModel, NeuralNetwork};
