use feedforward::activation_fn::Identity;
use feedforward::blaf::{apply_activation_function, gemv, ColumnVector, Matrix};
use feedforward::error::Error;
use feedforward::neural_net::NeuralNet;
use feedforward::num_gen::{ConstantGenerator, NumberGenerator, SequenceGenerator};
use feedforward::topology::{Topology, TopologyBuilder};

#[test]
fn test_matrix_new_lays_sequence_row_major() {
    let generator: SequenceGenerator<i64> = SequenceGenerator {
        values: vec![1, 2, 3, 4, 5, 6],
    };

    let matrix: Matrix<i64> = Matrix::new(2, 3, &generator).unwrap();
    assert_eq!(matrix.nb_rows(), 2);
    assert_eq!(matrix.nb_columns(), 3);
    // Row-major: row 0 is [1, 2, 3], row 1 is [4, 5, 6].
    assert_eq!(matrix.data().as_slice(), &[1, 2, 3, 4, 5, 6]);
}

#[test]
fn test_matrix_new_reports_generator_failure() {
    let generator: SequenceGenerator<i64> = SequenceGenerator {
        values: vec![1, 2, 3],
    };

    let res = Matrix::new(2, 3, &generator);
    assert_eq!(
        res.err(),
        Some(Error::GeneratorFailure {
            requested: 6,
            returned: 3
        })
    );
}

#[test]
fn test_gemv_exact_values() {
    let generator: SequenceGenerator<i64> = SequenceGenerator {
        values: vec![1, 2, 3, 2, 2, 4, 3, 2, 2, 4, 2, 1],
    };

    let matrix: Matrix<i64> = Matrix::new(4, 3, &generator).unwrap();
    let x: ColumnVector<i64> = vec![3, 2, 1];
    let y: ColumnVector<i64> = vec![4, 5, 2, 3];

    let res = gemv(&matrix, &x, &y).unwrap();
    assert_eq!(res, vec![14, 19, 17, 20]);
}

#[test]
fn test_gemv_error_kinds() {
    let generator: ConstantGenerator<i64> = ConstantGenerator { value: 0 };
    let matrix: Matrix<i64> = Matrix::new(3, 5, &generator).unwrap();

    let short_x: ColumnVector<i64> = vec![0; 4];
    let good_x: ColumnVector<i64> = vec![0; 5];
    let short_y: ColumnVector<i64> = vec![0; 2];
    let good_y: ColumnVector<i64> = vec![0; 3];

    // A column mismatch is reported even when the rows disagree too.
    assert_eq!(
        gemv(&matrix, &short_x, &short_y).err(),
        Some(Error::ShapeMismatchColumns)
    );
    assert_eq!(
        gemv(&matrix, &short_x, &good_y).err(),
        Some(Error::ShapeMismatchColumns)
    );
    assert_eq!(
        gemv(&matrix, &good_x, &short_y).err(),
        Some(Error::ShapeMismatchRows)
    );
    assert!(gemv(&matrix, &good_x, &good_y).is_ok());
}

#[test]
fn test_apply_identity_activation() {
    let x: ColumnVector<i64> = vec![-3, 0, 7];
    let y: ColumnVector<i64> = apply_activation_function(&Identity, &x);
    assert_eq!(y, x);
}

#[test]
fn test_constant_generator_counts() {
    let generator: ConstantGenerator<i64> = ConstantGenerator { value: 9 };
    let values: Vec<i64> = generator.generate_vec(4);
    assert_eq!(values, vec![9, 9, 9, 9]);
}

#[test]
fn test_error_descriptions() {
    assert_eq!(
        Error::ShapeMismatchColumns.describe(),
        "Number of columns of matrix and size of first vector must be equal"
    );
    assert_eq!(
        Error::MissingInputLayer.describe(),
        "There is no input layer in your neural network"
    );
    assert_eq!(
        Error::InputMismatch {
            expected: 2,
            actual: 3
        }
        .describe(),
        "Number of input are not consistent with topology of neural network"
    );
}

#[test]
fn test_neural_net_predict_integer_end_to_end() {
    // Widths 2 then 1, identity activation, constant-1 generator: the first
    // transition turns [1, 2] into [4, 4], the second into [9].
    let topology: Topology<Identity> = TopologyBuilder::new()
        .nb_input(2)
        .add_layer(2, Identity)
        .add_layer(1, Identity)
        .build()
        .unwrap();

    let generator: ConstantGenerator<i64> = ConstantGenerator { value: 1 };
    let net: NeuralNet<i64, Identity> = NeuralNet::new(topology, &generator).unwrap();

    let output = net.predict(&vec![1, 2]).unwrap();
    assert_eq!(output, vec![9]);
}

#[test]
fn test_neural_net_new_reports_generator_failure() {
    // The generator always returns 4 values; the first request (a 2 by 2
    // weight matrix) is satisfied, the second (a bias of 2) is not.
    let topology: Topology<Identity> = TopologyBuilder::new()
        .nb_input(2)
        .add_layer(2, Identity)
        .build()
        .unwrap();

    let generator: SequenceGenerator<i64> = SequenceGenerator {
        values: vec![1, 1, 1, 1],
    };
    let res: Result<NeuralNet<i64, Identity>, Error> = NeuralNet::new(topology, &generator);
    match res {
        Ok(_) => assert!(false),
        Err(e) => assert_eq!(
            e,
            Error::GeneratorFailure {
                requested: 2,
                returned: 4
            }
        ),
    }
}
