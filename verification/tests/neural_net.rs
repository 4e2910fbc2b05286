use feedforward::activation_fn::ActivationFunction;
use feedforward::error::Error;
use feedforward::neural_net::NeuralNet;
use feedforward::num_gen::ConstantGenerator;
use feedforward::scalar::Scalar;
use feedforward::topology::{Topology, TopologyBuilder};

#[derive(Clone, Copy, Debug, PartialEq)]
struct F64(f64);

impl Scalar for F64 {
    fn spec_add(self, _other: F64) -> F64 {
        unreachable!()
    }

    fn spec_mul(self, _other: F64) -> F64 {
        unreachable!()
    }

    fn add(self, other: F64) -> F64 {
        F64(self.0 + other.0)
    }

    fn mul(self, other: F64) -> F64 {
        F64(self.0 * other.0)
    }
}

// Number generator to fill matrix with zero
fn zero_generator() -> ConstantGenerator<F64> {
    ConstantGenerator { value: F64(0.0) }
}

// Number generator to fill matrix with one
fn one_generator() -> ConstantGenerator<F64> {
    ConstantGenerator { value: F64(1.0) }
}

// Activation function for test
#[derive(Default)]
struct TestActivationFn {}

impl ActivationFunction<F64> for TestActivationFn {
    fn spec_activate(&self, _x: F64) -> F64 {
        unreachable!()
    }

    fn activate(&self, x: F64) -> F64 {
        x
    }
}

#[test]
fn test_neural_net_new() {
    let nb_neurons: Vec<usize> = vec![2, 3, 1];

    let topology: Topology<TestActivationFn> = TopologyBuilder::new()
        .nb_input(nb_neurons[0])
        .add_layer(nb_neurons[1], TestActivationFn::default())
        .add_layer(nb_neurons[2], TestActivationFn::default())
        .build()
        .unwrap();

    let generator: ConstantGenerator<F64> = zero_generator();

    let neural_net: NeuralNet<F64, TestActivationFn> =
        NeuralNet::new(topology, &generator).unwrap();

    let size: usize = nb_neurons.len() - 1;

    assert_eq!(neural_net.weights().len(), size);
    assert_eq!(neural_net.biases().len(), size);
    assert_eq!(neural_net.activations().len(), size);

    for id in 0..size {
        assert_eq!(neural_net.weights()[id].nb_rows(), nb_neurons[id + 1]);
        assert_eq!(neural_net.weights()[id].nb_columns(), nb_neurons[id]);
        assert_eq!(neural_net.biases()[id].len(), nb_neurons[id + 1]);
    }
}

// Function to check if two numbers are approximatively equal
fn approx_equal(value: f64, reference: f64, precision: f64) -> bool {
    let mut error: f64 = (value - reference).abs();

    if reference != 0.0 {
        error /= reference.abs();
    }

    error < precision
}

#[test]
fn test_neural_net_predict_with_perceptron() {
    let topology: Topology<TestActivationFn> = TopologyBuilder::new()
        .nb_input(2)
        .add_layer(1, TestActivationFn::default())
        .build()
        .unwrap();

    let generator: ConstantGenerator<F64> = one_generator();

    let neural_net: NeuralNet<F64, TestActivationFn> =
        NeuralNet::new(topology, &generator).unwrap();
    let input: Vec<F64> = vec![F64(1.0), F64(2.0)];

    match neural_net.predict(&input) {
        Ok(output) => {
            assert_eq!(output.len(), 1);
            assert!(approx_equal(
                output[0].0,
                input.iter().map(|v| v.0).sum::<f64>() + 1.0,
                0.01
            ))
        }
        Err(_) => assert!(false),
    }
}

#[test]
fn test_neural_net_predict_with_simple_topology() {
    let topology: Topology<TestActivationFn> = TopologyBuilder::new()
        .nb_input(2)
        .add_layer(2, TestActivationFn::default())
        .add_layer(1, TestActivationFn::default())
        .build()
        .unwrap();

    let generator: ConstantGenerator<F64> = one_generator();

    let neural_net: NeuralNet<F64, TestActivationFn> =
        NeuralNet::new(topology, &generator).unwrap();
    let input: Vec<F64> = vec![F64(1.0), F64(2.0)];

    match neural_net.predict(&input) {
        Ok(output) => {
            assert_eq!(output.len(), 1);
            assert!(approx_equal(
                output[0].0,
                (input.iter().map(|v| v.0).sum::<f64>() + 1.0) * 2.0 + 1.0,
                0.01
            ))
        }
        Err(_) => assert!(false),
    }
}

#[test]
fn test_neural_net_predict_should_return_error() {
    let topology: Topology<TestActivationFn> = TopologyBuilder::new()
        .nb_input(2)
        .add_layer(2, TestActivationFn::default())
        .add_layer(1, TestActivationFn::default())
        .build()
        .unwrap();

    let generator: ConstantGenerator<F64> = one_generator();

    let neural_net: NeuralNet<F64, TestActivationFn> =
        NeuralNet::new(topology, &generator).unwrap();
    let input: Vec<F64> = vec![F64(1.0), F64(2.0), F64(3.0)];

    match neural_net.predict(&input) {
        Ok(_) => assert!(false),
        Err(_) => (),
    }
}

#[test]
fn test_predict_input_mismatch_details() {
    let topology: Topology<TestActivationFn> = TopologyBuilder::new()
        .nb_input(2)
        .add_layer(1, TestActivationFn::default())
        .build()
        .unwrap();

    let generator: ConstantGenerator<F64> = one_generator();

    let neural_net: NeuralNet<F64, TestActivationFn> =
        NeuralNet::new(topology, &generator).unwrap();
    let input: Vec<F64> = vec![F64(1.0), F64(2.0), F64(3.0)];

    let res = neural_net.predict(&input);
    assert_eq!(
        res.err(),
        Some(Error::InputMismatch {
            expected: 2,
            actual: 3
        })
    );
}

#[test]
fn test_predict_is_idempotent() {
    let topology: Topology<TestActivationFn> = TopologyBuilder::new()
        .nb_input(2)
        .add_layer(2, TestActivationFn::default())
        .add_layer(1, TestActivationFn::default())
        .build()
        .unwrap();

    let generator: ConstantGenerator<F64> = one_generator();

    let neural_net: NeuralNet<F64, TestActivationFn> =
        NeuralNet::new(topology, &generator).unwrap();
    let input: Vec<F64> = vec![F64(1.0), F64(2.0)];

    let first = neural_net.predict(&input).unwrap();
    let second = neural_net.predict(&input).unwrap();
    assert_eq!(first, second);
}
