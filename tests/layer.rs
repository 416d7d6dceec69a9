use neural_network::{ActivationFunctions, Layer, Matrix, NetworkError};

fn mat(rows: &[&[f64]]) -> Matrix<f64> {
    let cols = if rows.is_empty() { 0 } else { rows[0].len() };
    Matrix::from_rows(rows.iter().map(|r| r.to_vec()).collect(), cols).unwrap()
}

fn zeros(rows: usize, cols: usize) -> Matrix<f64> {
    Matrix::from_rows(vec![vec![0.0; cols]; rows], cols).unwrap()
}

#[test]
fn layer_creation() {
    let layer: Layer<f64> = Layer::new(5, 4, ActivationFunctions::Sigmoid, zeros(6, 4)).unwrap();
    assert_eq!(layer.get_input_layer_size(), 5);
    assert_eq!(layer.get_output_layer_size(), 4);
    let (rows, cols) = layer.get_weights().shape();
    assert_eq!(rows * cols, 24);
}

#[test]
fn layer_creation_refuses_wrong_shape() {
    assert_eq!(
        Layer::new(5, 4, ActivationFunctions::Sigmoid, zeros(5, 4)).err(),
        Some(NetworkError::LayerShapeMismatch)
    );
    assert_eq!(
        Layer::new(5, 4, ActivationFunctions::Sigmoid, zeros(6, 3)).err(),
        Some(NetworkError::LayerShapeMismatch)
    );
    assert_eq!(
        Layer::new(0, 0, ActivationFunctions::ReLU, zeros(0, 0)).err(),
        Some(NetworkError::LayerShapeMismatch)
    );
}

#[test]
fn layer_creation_with_zero_sizes() {
    let layer = Layer::new(0, 0, ActivationFunctions::Tanh, zeros(1, 0)).unwrap();
    assert_eq!(layer.get_input_layer_size(), 0);
    assert_eq!(layer.get_output_layer_size(), 0);
    assert_eq!(layer.get_weights().shape(), (1, 0));
    assert_eq!(layer.get_activation_function(), ActivationFunctions::Tanh);
}

#[test]
fn layer_activation_function() {
    let layer: Layer<f64> = Layer::new(4, 2, ActivationFunctions::Sigmoid, zeros(5, 2)).unwrap();
    assert_eq!(layer.get_activation_function(), ActivationFunctions::Sigmoid);
}

#[test]
fn layer_weights_modification_success() {
    let mut layer: Layer<f64> = Layer::new(2, 2, ActivationFunctions::Sigmoid, zeros(3, 2)).unwrap();

    assert_ne!(layer.get_weights().rows(), mat(&[&[1.0, 2.0], &[3.0, 4.0], &[5.0, 6.0]]).rows());

    let accepted = layer.update_weights(mat(&[&[1.0, 2.0], &[3.0, 4.0], &[5.0, 6.0]])).unwrap();
    assert_eq!(layer.get_weights().rows(), mat(&[&[1.0, 2.0], &[3.0, 4.0], &[5.0, 6.0]]).rows());
    assert_eq!(accepted.rows(), layer.get_weights().rows());
}

#[test]
fn layer_weights_modification_failure() {
    let mut layer: Layer<f64> = Layer::new(2, 2, ActivationFunctions::Sigmoid, zeros(3, 2)).unwrap();

    assert_ne!(layer.get_weights().rows(), mat(&[&[1.0, 2.0], &[3.0, 4.0], &[5.0, 6.0]]).rows());

    let mut error_thrown: bool = false;
    match layer.update_weights(mat(&[&[1.0, 2.0]])) {
        Ok(_) => {}
        Err(_) => error_thrown = true,
    };
    assert!(error_thrown);
}

#[test]
fn layer_failed_update_keeps_weights() {
    let initial = mat(&[&[0.5, -0.5], &[0.25, -0.25], &[1.0, -1.0]]);
    let mut layer = Layer::new(2, 2, ActivationFunctions::ReLU, initial.duplicate()).unwrap();
    assert_eq!(
        layer.update_weights(mat(&[&[1.0, 2.0, 3.0], &[3.0, 4.0, 5.0], &[5.0, 6.0, 7.0]])).err(),
        Some(NetworkError::LayerShapeMismatch)
    );
    assert_eq!(layer.update_weights(zeros(2, 2)).err(), Some(NetworkError::LayerShapeMismatch));
    assert_eq!(layer.get_weights().rows(), initial.rows());
    assert_eq!(layer.get_input_layer_size(), 2);
    assert_eq!(layer.get_output_layer_size(), 2);
}

#[test]
fn error_messages_are_distinct() {
    let all = [
        NetworkError::DuplicateInputLayer,
        NetworkError::MissingInputLayer,
        NetworkError::OutputAlreadyFinalized,
        NetworkError::LayerShapeMismatch,
    ];
    for (i, a) in all.iter().enumerate() {
        for (j, b) in all.iter().enumerate() {
            assert_eq!(i == j, a.message() == b.message());
        }
    }
}
