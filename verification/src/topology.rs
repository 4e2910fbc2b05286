use vstd::prelude::*;

use crate::error::Error;

verus! {

/// A neural network topology: the neuron count of every layer, input and
/// output included, and the activation function applied after each layer
/// transition.
///
/// `nb_neurons[0]` is the input width, the last entry the output width, and
/// `activation_functions` holds one function per transition, so exactly
/// `nb_neurons.len() - 1` of them. Built once by [`TopologyBuilder::build`],
/// immutable afterwards, and consumed whole by a network's constructor.
pub struct Topology<A> {
    /// Neuron count per layer, in order from input to output.
    pub nb_neurons: Vec<usize>,
    /// Activation function per layer transition, in order.
    pub activation_functions: Vec<A>,
}

impl<A> Topology<A> {
    /// A topology is well-formed when it has an input layer and at least one
    /// further layer, a positive input width, and exactly one activation
    /// function per layer transition.
    pub open spec fn wf(&self) -> bool {
        &&& self.nb_neurons@.len() >= 2
        &&& self.nb_neurons@[0] >= 1
        &&& self.activation_functions@.len() == self.nb_neurons@.len() - 1
    }

    /// Every pair of adjacent layer widths multiplies out within `usize`, so
    /// each transition's weight matrix can be laid out in one allocation.
    pub open spec fn sizes_fit(&self) -> bool {
        forall|i: int|
            0 <= i && i + 1 < self.nb_neurons@.len() ==> #[trigger] self.nb_neurons@[i + 1]
                * self.nb_neurons@[i] <= usize::MAX
    }
}

/// Incremental, validating constructor for [`Topology`]: set the input
/// width, append layers in order, then `build`.
pub struct TopologyBuilder<A> {
    nb_input: usize,
    layer_dimensions: Vec<usize>,
    activation_functions: Vec<A>,
}

impl<A> TopologyBuilder<A> {
    /// The input width set so far; zero while unset.
    pub closed spec fn input_width(&self) -> usize {
        self.nb_input
    }

    /// The neuron counts of the layers added so far, in call order.
    pub closed spec fn layers(&self) -> Seq<usize> {
        self.layer_dimensions@
    }

    /// The activation functions of the layers added so far, in call order.
    pub closed spec fn activations(&self) -> Seq<A> {
        self.activation_functions@
    }

    /// The builder accumulates one activation function per added layer.
    pub open spec fn wf(&self) -> bool {
        self.activations().len() == self.layers().len()
    }

    /// Construct an empty builder: no input width, no layers.
    pub fn new() -> (b: Self)
        ensures
            b.input_width() == 0,
            b.layers() == Seq::<usize>::empty(),
            b.activations() == Seq::<A>::empty(),
            b.wf(),
    {
        Self { nb_input: 0, layer_dimensions: Vec::new(), activation_functions: Vec::new() }
    }

    /// Set the number of inputs of the neural network; the last call wins.
    pub fn nb_input(self, nb_input: usize) -> (b: Self)
        ensures
            b.input_width() == nb_input,
            b.layers() == self.layers(),
            b.activations() == self.activations(),
            self.wf() ==> b.wf(),
    {
        let mut b = self;
        b.nb_input = nb_input;
        b
    }

    /// Append one layer: its neuron count and the activation function
    /// applied on each of its neurons. Call order is significant; it defines
    /// the layer sequence, and the last layer added is the output layer.
    pub fn add_layer(self, nb_neuron: usize, activation_function: A) -> (b: Self)
        ensures
            b.input_width() == self.input_width(),
            b.layers() == self.layers().push(nb_neuron),
            b.activations() == self.activations().push(activation_function),
            self.wf() ==> b.wf(),
    {
        let mut b = self;
        b.layer_dimensions.push(nb_neuron);
        b.activation_functions.push(activation_function);
        b
    }

    /// Build a neural network topology from the accumulated data.
    ///
    /// Validation, in this order, each check short-circuiting: an unset or
    /// zero input width is reported first, then the absence of any layer. On
    /// success the topology's layer widths are the input width followed by
    /// each added layer's neuron count, and its activation functions are the
    /// added ones, in call order.
    pub fn build(self) -> (res: Result<Topology<A>, Error>)
        requires
            self.wf(),
        ensures
            res is Ok <==> (self.input_width() >= 1 && self.layers().len() >= 1),
            match res {
                Ok(t) => {
                    &&& t.nb_neurons@ == seq![self.input_width()] + self.layers()
                    &&& t.activation_functions@ == self.activations()
                    &&& t.wf()
                },
                Err(e) => e == if self.input_width() == 0 {
                    Error::MissingInputLayer
                } else {
                    Error::MissingLayer
                },
            },
    {
        if self.nb_input == 0 {
            return Err(Error::MissingInputLayer);
        }
        if self.layer_dimensions.len() == 0 {
            return Err(Error::MissingLayer);
        }
        let mut nb_neurons: Vec<usize> = Vec::new();
        nb_neurons.push(self.nb_input);
        let mut i: usize = 0;
        while i < self.layer_dimensions.len()
            invariant
                i <= self.layers().len(),
                nb_neurons@.len() == i + 1,
                nb_neurons@[0] == self.input_width(),
                forall|k: int| 1 <= k < nb_neurons@.len() ==> nb_neurons@[k] == self.layers()[k - 1],
            decreases self.layers().len() - i,
        {
            nb_neurons.push(self.layer_dimensions[i]);
            i = i + 1;
        }
        proof {
            assert(nb_neurons@ =~= seq![self.input_width()] + self.layers());
        }
        Ok(Topology { nb_neurons, activation_functions: self.activation_functions })
    }
}

} // verus!
