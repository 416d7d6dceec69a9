//! A fully connected layer: its sizes, weights and activation kind.
use vstd::prelude::*;

use crate::activation_functions::ActivationFunctions;
use crate::error::NetworkError;
use crate::matrix::{rows_have_len, Matrix};

verus! {

/// What a layer is: its sizes, its weights row by row and its activation.
/// Row 0 of the weights holds the bias of each output unit; row `k + 1`
/// holds the weights of input feature `k`.
pub struct LayerModel<T> {
    pub input_size: nat,
    pub output_size: nat,
    pub weights: Seq<Seq<T>>,
    pub activation: ActivationFunctions,
}

impl<T> LayerModel<T> {
    /// The weights have shape `(input_size + 1) × output_size`.
    pub open spec fn wf(self) -> bool {
        &&& self.weights.len() == self.input_size + 1
        &&& rows_have_len(self.weights, self.output_size)
    }
}

/// The shape a weight matrix must have for `input_size` inputs and
/// `output_size` outputs.
pub open spec fn fits_layer<T>(weights: Matrix<T>, input_size: nat, output_size: nat) -> bool {
    &&& weights.wf()
    &&& weights.has_shape(input_size + 1, output_size)
}

/// A layer mapping a batch of `input_size`-wide rows to a batch of
/// `output_size`-wide rows.
pub struct Layer<T> {
    input_neuron_num: usize,
    output_neuron_num: usize,
    weights: Matrix<T>,
    activation_function: ActivationFunctions,
}

impl<T> View for Layer<T> {
    type V = LayerModel<T>;

    closed spec fn view(&self) -> LayerModel<T> {
        LayerModel {
            input_size: self.input_neuron_num as nat,
            output_size: self.output_neuron_num as nat,
            weights: self.weights@,
            activation: self.activation_function,
        }
    }
}

impl<T> Layer<T> {
    /// The weight matrix of the layer.
    pub closed spec fn spec_weights(&self) -> Matrix<T> {
        self.weights
    }

    /// The weight matrix fits the layer's sizes.
    pub open spec fn wf(&self) -> bool {
        &&& self@.wf()
        &&& fits_layer(self.spec_weights(), self@.input_size, self@.output_size)
        &&& self.spec_weights()@ == self@.weights
    }

    /// A layer with `input_neuron_num` inputs, `output_neuron_num` outputs and
    /// the given initial weights; refused with `LayerShapeMismatch` when the
    /// weights are not `(input_neuron_num + 1) × output_neuron_num`.
    pub fn new(
        input_neuron_num: usize,
        output_neuron_num: usize,
        activation_function: ActivationFunctions,
        weights: Matrix<T>,
    ) -> (r: Result<Layer<T>, NetworkError>)
        requires
            weights.wf(),
        ensures
            r.is_ok() <==> fits_layer(weights, input_neuron_num as nat, output_neuron_num as nat),
            r matches Ok(layer) ==> {
                &&& layer.wf()
                &&& layer@.input_size == input_neuron_num
                &&& layer@.output_size == output_neuron_num
                &&& layer@.activation == activation_function
                &&& layer.spec_weights() == weights
            },
            r matches Err(e) ==> e == NetworkError::LayerShapeMismatch,
    {
        let (rows, cols) = weights.shape();
        if rows == 0 || rows - 1 != input_neuron_num || cols != output_neuron_num {
            return Err(NetworkError::LayerShapeMismatch);
        }
        Ok(Layer { input_neuron_num, output_neuron_num, weights, activation_function })
    }

    /// Number of input features, bias excluded.
    pub fn get_input_layer_size(&self) -> (r: usize)
        ensures
            r == self@.input_size,
    {
        self.input_neuron_num
    }

    /// Number of output features.
    pub fn get_output_layer_size(&self) -> (r: usize)
        ensures
            r == self@.output_size,
    {
        self.output_neuron_num
    }

    /// The activation applied after the affine map.
    pub fn get_activation_function(&self) -> (r: ActivationFunctions)
        ensures
            r == self@.activation,
    {
        self.activation_function
    }

    /// Whether `weights` has the shape `(inputs + 1) × outputs` of this layer.
    pub fn accepts(&self, weights: &Matrix<T>) -> (r: bool)
        requires
            weights.wf(),
        ensures
            r == fits_layer(*weights, self@.input_size, self@.output_size),
    {
        let (rows, cols) = weights.shape();
        rows != 0 && rows - 1 == self.input_neuron_num && cols == self.output_neuron_num
    }

    /// The weight matrix; row 0 holds the biases.
    pub fn get_weights(&self) -> (r: &Matrix<T>)
        ensures
            *r == self.spec_weights(),
    {
        &self.weights
    }
}

impl<T: Copy> Layer<T> {
    /// Replaces the weights when `weights` is `(inputs + 1) × outputs` and
    /// returns a copy of them; otherwise refuses with `LayerShapeMismatch`
    /// and keeps the layer as it was.
    pub fn update_weights(&mut self, weights: Matrix<T>) -> (r: Result<Matrix<T>, NetworkError>)
        requires
            old(self).wf(),
            weights.wf(),
        ensures
            r.is_ok() <==> fits_layer(weights, old(self)@.input_size, old(self)@.output_size),
            r matches Ok(m) ==> {
                &&& m@ == weights@
                &&& m.num_cols() == weights.num_cols()
                &&& final(self).spec_weights() == weights
                &&& final(self)@ == (LayerModel { weights: weights@, ..old(self)@ })
            },
            r matches Err(e) ==> e == NetworkError::LayerShapeMismatch && *final(self) == *old(self),
            final(self).wf(),
    {
        if !self.accepts(&weights) {
            return Err(NetworkError::LayerShapeMismatch);
        }
        let accepted = weights.duplicate();
        self.weights = weights;
        Ok(accepted)
    }
}

} // verus!
