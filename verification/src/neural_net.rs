use vstd::prelude::*;

use crate::activation_fn::{activated, ActivationFunction};
use crate::blaf::{apply_activation_function, gemv, gemv_spec, ColumnVector, Matrix};
use crate::error::Error;
use crate::num_gen::NumberGenerator;
use crate::scalar::Scalar;
use crate::topology::Topology;

verus! {

/// The number of scalars requested from a generator for the weight matrix of
/// layer transition `i`: the matrix has `nb_neurons[i + 1]` rows and
/// `nb_neurons[i]` columns.
pub open spec fn weight_request<A>(topology: Topology<A>, i: int) -> usize {
    (topology.nb_neurons@[i + 1] * topology.nb_neurons@[i]) as usize
}

/// The number of scalars requested from a generator for the bias vector of
/// layer transition `i`: one per neuron of the transition's target layer.
pub open spec fn bias_request<A>(topology: Topology<A>, i: int) -> usize {
    topology.nb_neurons@[i + 1]
}

/// The generator answers both of layer transition `i`'s requests — the
/// weight matrix's, then the bias vector's — with exactly the requested
/// count of scalars.
pub open spec fn transition_ok<T, A, Generator: NumberGenerator<T>>(
    topology: Topology<A>,
    generator: Generator,
    i: int,
) -> bool {
    &&& generator.spec_generate(weight_request(topology, i)).len() == weight_request(topology, i)
    &&& generator.spec_generate(bias_request(topology, i)).len() == bias_request(topology, i)
}

/// The failure that constructing layer transition `i` reports when the
/// generator misanswers one of its requests: the weight matrix's request is
/// made first, so its mismatch is the one reported.
pub open spec fn transition_failure<T, A, Generator: NumberGenerator<T>>(
    topology: Topology<A>,
    generator: Generator,
    i: int,
) -> Error {
    if generator.spec_generate(weight_request(topology, i)).len() != weight_request(topology, i) {
        Error::GeneratorFailure {
            requested: weight_request(topology, i),
            returned: generator.spec_generate(weight_request(topology, i)).len() as usize,
        }
    } else {
        Error::GeneratorFailure {
            requested: bias_request(topology, i),
            returned: generator.spec_generate(bias_request(topology, i)).len() as usize,
        }
    }
}

/// The generator answers every request a network construction over
/// `topology` makes with exactly the requested count of scalars.
pub open spec fn generator_agrees<T, A, Generator: NumberGenerator<T>>(
    topology: Topology<A>,
    generator: Generator,
) -> bool {
    forall|i: int|
        0 <= i < topology.nb_neurons@.len() - 1 ==> #[trigger] transition_ok::<T, A, Generator>(
            topology,
            generator,
            i,
        )
}

/// A feedforward neural network: one weight matrix, one bias vector and one
/// activation function per layer transition. Created once from a topology
/// and a number generator, immutable thereafter; `predict` is its only
/// operation.
pub struct NeuralNet<T, A> {
    weights: Vec<Matrix<T>>,
    bias: Vec<ColumnVector<T>>,
    activation_functions: Vec<A>,
}

impl<T: Scalar, A: ActivationFunction<T>> NeuralNet<T, A> {
    /// The weight matrices, one per layer transition.
    pub closed spec fn spec_weights(&self) -> Seq<Matrix<T>> {
        self.weights@
    }

    /// The bias vectors, one per layer transition.
    pub closed spec fn spec_bias(&self) -> Seq<Seq<T>> {
        self.bias@.map_values(|v: ColumnVector<T>| v@)
    }

    /// The activation functions, one per layer transition.
    pub closed spec fn spec_activations(&self) -> Seq<A> {
        self.activation_functions@
    }

    /// How many layer transitions the network has.
    pub open spec fn nb_transitions(&self) -> nat {
        self.spec_weights().len()
    }

    /// The declared input width: the column count of the first weight
    /// matrix.
    pub open spec fn input_width(&self) -> nat {
        self.spec_weights()[0].cols()
    }

    /// The output width: the row count of the last weight matrix.
    pub open spec fn output_width(&self) -> nat {
        self.spec_weights()[self.nb_transitions() - 1].rows()
    }

    /// The shape invariants construction establishes: at least one
    /// transition; per transition a well-formed weight matrix, a bias vector
    /// as long as the matrix has rows, and an activation function; and
    /// adjacent matrices chained so that each transition's input dimension
    /// is its predecessor's output dimension.
    pub open spec fn wf(&self) -> bool {
        let l = self.nb_transitions();
        &&& l >= 1
        &&& self.spec_bias().len() == l
        &&& self.spec_activations().len() == l
        &&& forall|i: int| 0 <= i < l ==> (#[trigger] self.spec_weights()[i]).wf()
        &&& forall|i: int|
            0 <= i < l ==> (#[trigger] self.spec_bias()[i]).len() == self.spec_weights()[i].rows()
        &&& forall|i: int|
            0 <= i < l - 1 ==> (#[trigger] self.spec_weights()[i + 1]).cols()
                == self.spec_weights()[i].rows()
    }

    /// The running activation vector after the first `i` layer transitions:
    /// the input itself for `i == 0`, and otherwise the previous vector put
    /// through transition `i - 1`'s affine transform and activation.
    pub open spec fn layer_output(&self, input: Seq<T>, i: int) -> Seq<T>
        decreases i,
    {
        if i <= 0 {
            input
        } else {
            activated(
                self.spec_activations()[i - 1],
                gemv_spec(
                    self.spec_weights()[i - 1],
                    self.layer_output(input, i - 1),
                    self.spec_bias()[i - 1],
                ),
            )
        }
    }

    /// What `predict` returns on an input of the declared width: the input
    /// folded through every layer transition in order.
    pub open spec fn spec_predict(&self, input: Seq<T>) -> Seq<T> {
        self.layer_output(input, self.nb_transitions() as int)
    }

    /// Construct a neural network from a topology, consuming it, and a
    /// number generator. For each layer transition `i`, in order, the weight
    /// matrix is filled first with `nb_neurons[i + 1] * nb_neurons[i]`
    /// requested scalars laid out row-major, then the bias vector with
    /// `nb_neurons[i + 1]` of them. The construction fails only if the
    /// generator fails, that is, answers some request with a different count
    /// of scalars; the first such failure is reported and nothing is
    /// truncated or padded.
    pub fn new<Generator: NumberGenerator<T>>(topology: Topology<A>, random_gen: &Generator) -> (res:
        Result<Self, Error>)
        requires
            topology.wf(),
            topology.sizes_fit(),
        ensures
            res is Ok <==> generator_agrees(topology, *random_gen),
            match res {
                Ok(net) => {
                    &&& net.wf()
                    &&& net.nb_transitions() == topology.nb_neurons@.len() - 1
                    &&& forall|i: int|
                        0 <= i < net.nb_transitions() ==> {
                            &&& (#[trigger] net.spec_weights()[i]).rows()
                                == topology.nb_neurons@[i + 1]
                            &&& net.spec_weights()[i].cols() == topology.nb_neurons@[i]
                            &&& net.spec_weights()[i].entries() == random_gen.spec_generate(
                                weight_request(topology, i),
                            )
                            &&& net.spec_bias()[i] == random_gen.spec_generate(
                                bias_request(topology, i),
                            )
                        }
                    &&& net.spec_activations() == topology.activation_functions@
                },
                Err(e) => exists|i: int|
                    {
                        &&& 0 <= i < topology.nb_neurons@.len() - 1
                        &&& forall|j: int|
                            0 <= j < i ==> #[trigger] transition_ok::<T, A, Generator>(
                                topology,
                                *random_gen,
                                j,
                            )
                        &&& !(#[trigger] transition_ok::<T, A, Generator>(topology, *random_gen, i))
                        &&& e == transition_failure::<T, A, Generator>(topology, *random_gen, i)
                    },
            },
    {
        let nb_layer: usize = topology.nb_neurons.len();
        let mut weights: Vec<Matrix<T>> = Vec::new();
        let mut bias: Vec<ColumnVector<T>> = Vec::new();
        let mut id: usize = 0;
        while id < nb_layer - 1
            invariant
                topology.wf(),
                topology.sizes_fit(),
                nb_layer == topology.nb_neurons@.len(),
                id <= nb_layer - 1,
                weights@.len() == id,
                bias@.len() == id,
                forall|i: int|
                    0 <= i < id ==> {
                        &&& (#[trigger] weights@[i]).wf()
                        &&& weights@[i].rows() == topology.nb_neurons@[i + 1]
                        &&& weights@[i].cols() == topology.nb_neurons@[i]
                        &&& weights@[i].entries() == random_gen.spec_generate(
                            weight_request(topology, i),
                        )
                    },
                forall|i: int|
                    0 <= i < id ==> (#[trigger] bias@[i])@ == random_gen.spec_generate(
                        bias_request(topology, i),
                    ),
                forall|i: int|
                    0 <= i < id ==> #[trigger] transition_ok::<T, A, Generator>(
                        topology,
                        *random_gen,
                        i,
                    ),
            decreases nb_layer - 1 - id,
        {
            let nb_rows: usize = topology.nb_neurons[id + 1];
            let nb_cols: usize = topology.nb_neurons[id];
            proof {
                assert(nb_rows * nb_cols <= usize::MAX);
                assert(weight_request(topology, id as int) == (nb_rows * nb_cols) as usize);
            }
            let w = match Matrix::new(nb_rows, nb_cols, random_gen) {
                Ok(w) => w,
                Err(e) => {
                    proof {
                        assert(!transition_ok::<T, A, Generator>(
                            topology,
                            *random_gen,
                            id as int,
                        ));
                        assert(e == transition_failure::<T, A, Generator>(
                            topology,
                            *random_gen,
                            id as int,
                        ));
                        assert(!generator_agrees(topology, *random_gen));
                    }
                    return Err(e);
                },
            };
            let b = random_gen.generate_vec(nb_rows);
            if b.len() != nb_rows {
                proof {
                    assert(bias_request(topology, id as int) == nb_rows);
                    assert(random_gen.spec_generate(weight_request(topology, id as int)).len()
                        == weight_request(topology, id as int));
                    assert(!transition_ok::<T, A, Generator>(topology, *random_gen, id as int));
                    assert(Error::GeneratorFailure { requested: nb_rows, returned: b.len() }
                        == transition_failure::<T, A, Generator>(topology, *random_gen, id as int));
                    assert(!generator_agrees(topology, *random_gen));
                }
                return Err(Error::GeneratorFailure { requested: nb_rows, returned: b.len() });
            }
            weights.push(w);
            bias.push(b);
            id = id + 1;
        }
        let net = NeuralNet { weights, bias, activation_functions: topology.activation_functions };
        proof {
            assert(net.spec_bias().len() == net.nb_transitions());
            assert forall|i: int| 0 <= i < net.nb_transitions() implies (
            #[trigger] net.spec_bias()[i]).len() == net.spec_weights()[i].rows() by {
                assert(transition_ok::<T, A, Generator>(topology, *random_gen, i));
            }
            assert forall|i: int| 0 <= i < net.nb_transitions() - 1 implies (
            #[trigger] net.spec_weights()[i + 1]).cols() == net.spec_weights()[i].rows() by {
                assert(net.spec_weights()[i].rows() == topology.nb_neurons@[i + 1]);
            }
        }
        Ok(net)
    }

    /// The weight matrices, one per layer transition, in order.
    pub fn weights(&self) -> (r: &Vec<Matrix<T>>)
        ensures
            r@ == self.spec_weights(),
    {
        &self.weights
    }

    /// The bias vectors, one per layer transition, in order.
    pub fn biases(&self) -> (r: &Vec<ColumnVector<T>>)
        ensures
            r@.len() == self.spec_bias().len(),
            forall|i: int| 0 <= i < r@.len() ==> (#[trigger] r@[i])@ == self.spec_bias()[i],
    {
        &self.bias
    }

    /// The activation functions, one per layer transition, in order.
    pub fn activations(&self) -> (r: &Vec<A>)
        ensures
            r@ == self.spec_activations(),
    {
        &self.activation_functions
    }

    /// Predict the output for the input given in argument: starting from the
    /// input vector, apply each layer transition in order — the affine
    /// transform `weights[i] * a + bias[i]`, then the transition's
    /// activation function elementwise — and return the vector the last
    /// transition yields.
    ///
    /// An input whose length differs from the declared input width is
    /// rejected with the expected and actual sizes; nothing else fails, and
    /// repeated calls on the same network leave it untouched.
    pub fn predict(&self, input: &ColumnVector<T>) -> (res: Result<ColumnVector<T>, Error>)
        requires
            self.wf(),
        ensures
            res is Ok <==> input@.len() == self.input_width(),
            match res {
                Ok(out) => out@ == self.spec_predict(input@) && out@.len() == self.output_width(),
                Err(e) => (e matches Error::InputMismatch { expected, actual } && expected
                    == self.input_width() && actual == input@.len()),
            },
    {
        let expected: usize = self.weights[0].nb_columns();
        if input.len() != expected {
            return Err(Error::InputMismatch { expected, actual: input.len() });
        }
        let mut output: ColumnVector<T> = Vec::new();
        let mut i: usize = 0;
        while i < input.len()
            invariant
                i <= input@.len(),
                output@.len() == i,
                forall|k: int| 0 <= k < i ==> output@[k] == input@[k],
            decreases input@.len() - i,
        {
            output.push(input[i]);
            i = i + 1;
        }
        proof {
            assert(output@ =~= input@);
        }
        let mut id: usize = 0;
        while id < self.weights.len()
            invariant
                self.wf(),
                id <= self.nb_transitions(),
                input@.len() == self.input_width(),
                output@ == self.layer_output(input@, id as int),
                output@.len() == if id == 0 {
                    input@.len()
                } else {
                    self.spec_weights()[id - 1].rows()
                },
            decreases self.nb_transitions() - id,
        {
            proof {
                assert(self.spec_weights()[id as int].wf());
                assert(self.spec_bias()[id as int].len() == self.spec_weights()[id as int].rows());
                if id > 0 {
                    let j = id as int - 1;
                    assert(self.spec_weights()[j + 1].cols() == self.spec_weights()[j].rows());
                }
            }
            let neuron_inputs = match gemv(&self.weights[id], &output, &self.bias[id]) {
                Ok(v) => v,
                Err(e) => {
                    proof {
                        assert(false);
                    }
                    return Err(e);
                },
            };
            output = apply_activation_function(&self.activation_functions[id], &neuron_inputs);
            id = id + 1;
        }
        Ok(output)
    }
}

/// Prediction is idempotent: a network holds no mutable runtime state, so
/// two predictions on the same network with the same input yield identical
/// outputs.
pub proof fn lemma_predict_idempotent<T: Scalar, A: ActivationFunction<T>>(
    net: NeuralNet<T, A>,
    input: Seq<T>,
    out1: Seq<T>,
    out2: Seq<T>,
)
    requires
        out1 == net.spec_predict(input),
        out2 == net.spec_predict(input),
    ensures
        out1 == out2,
{
}

} // verus!
