//! Assembling layers into a network, and running a batch through it.
use vstd::prelude::*;

use crate::activation_functions::ActivationFunctions;
use crate::error::NetworkError;
use crate::layer::{fits_layer, Layer, LayerModel};
use crate::matrix::Matrix;

verus! {

/// What a network is: its input width, its layers in evaluation order and
/// how far it has been built.
pub struct NetworkModel<T> {
    pub input_size: nat,
    pub layers: Seq<LayerModel<T>>,
    pub input_created: bool,
    pub output_created: bool,
}

impl<T> NetworkModel<T> {
    /// The network before any builder step.
    pub open spec fn empty() -> NetworkModel<T> {
        NetworkModel { input_size: 0, layers: Seq::empty(), input_created: false, output_created: false }
    }

    /// The input width of the next layer to be appended: the output width of
    /// the last layer, or the network's input width when there is none.
    pub open spec fn next_input_size(self) -> nat {
        if self.layers.len() == 0 {
            self.input_size
        } else {
            self.layers.last().output_size
        }
    }

    /// Each layer's weights fit its sizes, the layers chain from the input
    /// width onwards, layers come only after the input, and a finished
    /// network has its output layer.
    pub open spec fn wf(self) -> bool {
        &&& forall|i: int| 0 <= i < self.layers.len() ==> (#[trigger] self.layers[i]).wf()
        &&& self.layers.len() > 0 ==> self.layers[0].input_size == self.input_size
        &&& forall|i: int, j: int|
            #![trigger self.layers[i], self.layers[j]]
            0 <= i && j == i + 1 && j < self.layers.len() ==> self.layers[i].output_size
                == self.layers[j].input_size
        &&& self.layers.len() > 0 ==> self.input_created
        &&& self.output_created ==> self.layers.len() > 0
    }

    /// The outcome of setting the input width to `n`.
    pub open spec fn with_input(self, n: nat) -> Result<NetworkModel<T>, NetworkError> {
        if self.input_created {
            Err(NetworkError::DuplicateInputLayer)
        } else {
            Ok(NetworkModel { input_size: n, input_created: true, ..self })
        }
    }

    /// The outcome of appending a layer of width `n` with the given weights;
    /// `is_output` marks it as the output layer.
    pub open spec fn with_layer(
        self,
        n: nat,
        activation: ActivationFunctions,
        weights: Matrix<T>,
        is_output: bool,
    ) -> Result<NetworkModel<T>, NetworkError> {
        if !self.input_created {
            Err(NetworkError::MissingInputLayer)
        } else if self.output_created {
            Err(NetworkError::OutputAlreadyFinalized)
        } else if !fits_layer(weights, self.next_input_size(), n) {
            Err(NetworkError::LayerShapeMismatch)
        } else {
            let layer = LayerModel {
                input_size: self.next_input_size(),
                output_size: n,
                weights: weights@,
                activation,
            };
            Ok(NetworkModel { layers: self.layers.push(layer), output_created: is_output, ..self })
        }
    }
}

/// A builder outcome seen through the network's model.
pub open spec fn outcome_view<T>(r: Result<NeuralNetwork<T>, NetworkError>) -> Result<
    NetworkModel<T>,
    NetworkError,
> {
    match r {
        Ok(nn) => Ok(nn@),
        Err(e) => Err(e),
    }
}

/// The input width is set at most once: after `add_input` has succeeded, any
/// further `add_input` is refused with `DuplicateInputLayer`.
pub proof fn lemma_input_set_once<T>(m: NetworkModel<T>, first: nat, second: nat)
    ensures
        m.with_input(first) matches Ok(next) ==> next.with_input(second) == Err::<
            NetworkModel<T>,
            NetworkError,
        >(NetworkError::DuplicateInputLayer),
{
}

/// A layer, hidden or output, can only follow the input: before `add_input`
/// has succeeded, appending one is refused with `MissingInputLayer`.
pub proof fn lemma_layer_needs_input<T>(
    m: NetworkModel<T>,
    n: nat,
    activation: ActivationFunctions,
    weights: Matrix<T>,
    is_output: bool,
)
    requires
        !m.input_created,
    ensures
        m.with_layer(n, activation, weights, is_output) == Err::<NetworkModel<T>, NetworkError>(
            NetworkError::MissingInputLayer,
        ),
{
}

/// The output layer closes the network: after `add_output_layer` has
/// succeeded, appending any further layer is refused with
/// `OutputAlreadyFinalized`.
pub proof fn lemma_output_is_final<T>(
    m: NetworkModel<T>,
    n: nat,
    activation: ActivationFunctions,
    weights: Matrix<T>,
    next_n: nat,
    next_activation: ActivationFunctions,
    next_weights: Matrix<T>,
    next_is_output: bool,
)
    ensures
        m.with_layer(n, activation, weights, true) matches Ok(done) ==> done.with_layer(
            next_n,
            next_activation,
            next_weights,
            next_is_output,
        ) == Err::<NetworkModel<T>, NetworkError>(NetworkError::OutputAlreadyFinalized),
{
}

/// Every successful builder step keeps the network well formed: the layers
/// still chain from the input width, each one's weights fit its sizes, and
/// an output layer is present once the network is finished.
pub proof fn lemma_builder_keeps_wf<T>(
    m: NetworkModel<T>,
    input_size: nat,
    n: nat,
    activation: ActivationFunctions,
    weights: Matrix<T>,
    is_output: bool,
)
    requires
        m.wf(),
    ensures
        NetworkModel::<T>::empty().wf(),
        m.with_input(input_size) matches Ok(next) ==> next.wf(),
        m.with_layer(n, activation, weights, is_output) matches Ok(next) ==> next.wf(),
{
    if let Ok(next) = m.with_layer(n, activation, weights, is_output) {
        let last = next.layers.len() - 1;
        assert(next.layers[last].wf());
        assert forall|i: int, j: int|
            #![trigger next.layers[i], next.layers[j]]
            0 <= i && j == i + 1 && j < next.layers.len() implies next.layers[i].output_size
                == next.layers[j].input_size by {
            if j < last {
                assert(m.layers[i] == next.layers[i] && m.layers[j] == next.layers[j]);
            }
        }
    }
}

/// An ordered stack of fully connected layers with its builder state.
pub struct NeuralNetwork<T> {
    input_neuron_num: usize,
    layers: Vec<Layer<T>>,
    input_created: bool,
    output_created: bool,
}

impl<T> View for NeuralNetwork<T> {
    type V = NetworkModel<T>;

    closed spec fn view(&self) -> NetworkModel<T> {
        NetworkModel {
            input_size: self.input_neuron_num as nat,
            layers: self.layers@.map_values(|l: Layer<T>| l@),
            input_created: self.input_created,
            output_created: self.output_created,
        }
    }
}

impl<T> NeuralNetwork<T> {
    /// The layers themselves, in evaluation order.
    pub closed spec fn spec_layers(&self) -> Seq<Layer<T>> {
        self.layers@
    }

    /// The model is well formed, and each layer's weights are those of its
    /// model.
    pub open spec fn wf(&self) -> bool {
        &&& self@.wf()
        &&& self.spec_layers().len() == self@.layers.len()
        &&& forall|i: int|
            0 <= i < self.spec_layers().len() ==> (#[trigger] self.spec_layers()[i]).wf()
                && self.spec_layers()[i]@ == self@.layers[i]
    }

    /// An empty network: no input width, no layers.
    pub fn new() -> (r: NeuralNetwork<T>)
        ensures
            r.wf(),
            r@ == NetworkModel::<T>::empty(),
    {
        let r = NeuralNetwork { input_neuron_num: 0, layers: Vec::new(), input_created: false, output_created: false };
        assert(r@.layers =~= Seq::<LayerModel<T>>::empty());
        r
    }

    /// The input width that the next appended layer must take.
    pub fn next_layer_input_size(&self) -> (r: usize)
        requires
            self.wf(),
        ensures
            r == self@.next_input_size(),
    {
        if self.layers.len() == 0 {
            self.input_neuron_num
        } else {
            self.layers[self.layers.len() - 1].get_output_layer_size()
        }
    }

    /// Input width of the network.
    pub fn get_input_size(&self) -> (r: usize)
        ensures
            r == self@.input_size,
    {
        self.input_neuron_num
    }

    /// Whether the input width has been set.
    pub fn is_input_created(&self) -> (r: bool)
        ensures
            r == self@.input_created,
    {
        self.input_created
    }

    /// Whether the output layer has been appended.
    pub fn is_output_created(&self) -> (r: bool)
        ensures
            r == self@.output_created,
    {
        self.output_created
    }

    /// The layers in evaluation order.
    pub fn get_layers(&self) -> (r: &Vec<Layer<T>>)
        ensures
            r@ == self.spec_layers(),
    {
        &self.layers
    }

    /// Runs the batch `inputs` through the layers in order. `activate`
    /// computes a layer's output batch from its input batch. The result is
    /// the trace: `inputs` itself, then the output of each layer.
    pub fn feed_forward<F>(&self, inputs: Matrix<T>, activate: F) -> (r: Vec<Matrix<T>>)
        where
            F: Fn(&Layer<T>, &Matrix<T>) -> Matrix<T>,
        requires
            forall|i: int, m: &Matrix<T>|
                #![trigger activate.requires((&self.spec_layers()[i], m))]
                0 <= i < self.spec_layers().len() ==> activate.requires((&self.spec_layers()[i], m)),
        ensures
            r@.len() == self.spec_layers().len() + 1,
            r@[0] == inputs,
            forall|i: int|
                #![trigger self.spec_layers()[i]]
                0 <= i < self.spec_layers().len() ==> activate.ensures(
                    (&self.spec_layers()[i], &r@[i]),
                    r@[i + 1],
                ),
    {
        let mut outputs: Vec<Matrix<T>> = Vec::new();
        outputs.push(inputs);
        let mut index: usize = 0;
        while index < self.layers.len()
            invariant
                0 <= index <= self.layers.len(),
                outputs@.len() == index + 1,
                outputs@[0] == inputs,
                forall|i: int, m: &Matrix<T>|
                    #![trigger activate.requires((&self.spec_layers()[i], m))]
                    0 <= i < self.spec_layers().len() ==> activate.requires((&self.spec_layers()[i], m)),
                forall|i: int|
                    #![trigger self.spec_layers()[i]]
                    0 <= i < index ==> activate.ensures(
                        (&self.spec_layers()[i], &outputs@[i]),
                        outputs@[i + 1],
                    ),
            decreases self.layers.len() - index,
        {
            assert(activate.requires((&self.spec_layers()[index as int], &outputs@[index as int])));
            let next = activate(&self.layers[index], &outputs[index]);
            outputs.push(next);
            index += 1;
        }
        outputs
    }

    /// Sets the input width to `input_neurons`; refused with
    /// `DuplicateInputLayer` once an input width was set.
    pub fn add_input(self, input_neurons: usize) -> (r: Result<NeuralNetwork<T>, NetworkError>)
        requires
            self.wf(),
        ensures
            outcome_view(r) == self@.with_input(input_neurons as nat),
            r matches Ok(nn) ==> nn.wf(),
    {
        if self.input_created {
            return Err(NetworkError::DuplicateInputLayer);
        }
        let mut nn = self;
        nn.input_neuron_num = input_neurons;
        nn.input_created = true;
        Ok(nn)
    }

    /// Appends a layer of width `neuron_num` that takes the previous layer's
    /// output (or the input), marking it as the output layer when `is_output`.
    fn append_layer(
        self,
        neuron_num: usize,
        activation_function: ActivationFunctions,
        weights: Matrix<T>,
        is_output: bool,
    ) -> (r: Result<NeuralNetwork<T>, NetworkError>)
        requires
            self.wf(),
            weights.wf(),
        ensures
            outcome_view(r) == self@.with_layer(neuron_num as nat, activation_function, weights, is_output),
            r matches Ok(nn) ==> nn.wf(),
    {
        if !self.input_created {
            return Err(NetworkError::MissingInputLayer);
        }
        if self.output_created {
            return Err(NetworkError::OutputAlreadyFinalized);
        }
        let previous = self.next_layer_input_size();
        let layer = match Layer::new(previous, neuron_num, activation_function, weights) {
            Ok(layer) => layer,
            Err(e) => return Err(e),
        };
        let mut nn = self;
        let ghost before = nn.layers@;
        nn.layers.push(layer);
        nn.output_created = is_output;
        assert(nn.layers@ == before.push(layer));
        assert(nn@.layers =~= self@.layers.push(layer@));
        Ok(nn)
    }

    /// Appends a hidden layer of width `neuron_num` with the given weights,
    /// which must be `(previous width + 1) × neuron_num`.
    ///
    /// Refused with `MissingInputLayer` before the input width is set, with
    /// `OutputAlreadyFinalized` after the output layer, and with
    /// `LayerShapeMismatch` when the weights do not fit.
    pub fn add_hidden_layer(
        self,
        neuron_num: usize,
        activation_function: ActivationFunctions,
        weights: Matrix<T>,
    ) -> (r: Result<NeuralNetwork<T>, NetworkError>)
        requires
            self.wf(),
            weights.wf(),
        ensures
            outcome_view(r) == self@.with_layer(neuron_num as nat, activation_function, weights, false),
            r matches Ok(nn) ==> nn.wf(),
    {
        self.append_layer(neuron_num, activation_function, weights, false)
    }

    /// Appends the output layer, after which no layer can be appended.
    /// Refused in the same cases as `add_hidden_layer`, and with
    /// `OutputAlreadyFinalized` when the output layer is already there.
    pub fn add_output_layer(
        self,
        neuron_num: usize,
        activation_function: ActivationFunctions,
        weights: Matrix<T>,
    ) -> (r: Result<NeuralNetwork<T>, NetworkError>)
        requires
            self.wf(),
            weights.wf(),
        ensures
            outcome_view(r) == self@.with_layer(neuron_num as nat, activation_function, weights, true),
            r matches Ok(nn) ==> nn.wf(),
    {
        self.append_layer(neuron_num, activation_function, weights, true)
    }
}

impl<T: Copy> NeuralNetwork<T> {
    /// Replaces the weights of layer `index` as `Layer::update_weights`
    /// does: accepted when they are `(inputs + 1) × outputs` for that layer,
    /// refused with `LayerShapeMismatch` otherwise, leaving the network as
    /// it was.
    pub fn update_layer_weights(&mut self, index: usize, weights: Matrix<T>) -> (r: Result<
        Matrix<T>,
        NetworkError,
    >)
        requires
            old(self).wf(),
            weights.wf(),
            index < old(self)@.layers.len(),
        ensures
            final(self).wf(),
            r.is_ok() <==> fits_layer(
                weights,
                old(self)@.layers[index as int].input_size,
                old(self)@.layers[index as int].output_size,
            ),
            r matches Ok(m) ==> {
                &&& m@ == weights@
                &&& m.num_cols() == weights.num_cols()
                &&& final(self).spec_layers()[index as int].spec_weights() == weights
                &&& final(self)@ == (NetworkModel {
                    layers: old(self)@.layers.update(
                        index as int,
                        LayerModel { weights: weights@, ..old(self)@.layers[index as int] },
                    ),
                    ..old(self)@
                })
            },
            r matches Err(e) ==> e == NetworkError::LayerShapeMismatch && *final(self) == *old(self),
    {
        if !self.layers[index].accepts(&weights) {
            return Err(NetworkError::LayerShapeMismatch);
        }
        let ghost before = self.layers@;
        let r = self.layers[index].update_weights(weights);
        assert(self.layers@ == before.update(index as int, self.layers@[index as int]));
        assert(self@.layers =~= old(self)@.layers.update(
            index as int,
            LayerModel { weights: weights@, ..old(self)@.layers[index as int] },
        ));
        r
    }
}

} // verus!
