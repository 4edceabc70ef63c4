use unsw_regression::batch::UnswNb15Batcher;
use unsw_regression::data::FEATURE_COUNT;
use unsw_regression::model::{
    LinearLayout, RegressionModel, RegressionModelConfig, Shape, DEFAULT_HIDDEN_SIZE,
};
use unsw_regression::training::ExpConfig;

#[test]
fn default_hidden_size_is_64() {
    let config = RegressionModelConfig::new(10);
    assert_eq!(config.num_features, 10);
    assert_eq!(config.hidden_size, 64);
    assert_eq!(DEFAULT_HIDDEN_SIZE, 64);
    let wide = config.with_hidden_size(128);
    assert_eq!(wide, RegressionModelConfig { num_features: 10, hidden_size: 128 });
}

#[test]
fn init_lays_out_two_biased_layers() {
    let model = RegressionModelConfig::new(37).with_hidden_size(16).init();
    assert_eq!(model.input_layer, LinearLayout { d_input: 37, d_output: 16, bias: true });
    assert_eq!(model.output_layer, LinearLayout { d_input: 16, d_output: 1, bias: true });
}

#[test]
fn forward_maps_rows_of_features_to_one_prediction_each() {
    let model = RegressionModelConfig::new(37).init();
    for rows in [0usize, 1, 32, 100] {
        assert_eq!(model.forward(Shape { rows, cols: 37 }), Some(Shape { rows, cols: 1 }));
    }
    assert_eq!(model.forward(Shape { rows: 32, cols: 38 }), None);
    assert_eq!(model.forward(Shape { rows: 32, cols: 0 }), None);
}

#[test]
fn layer_forward_checks_the_input_width() {
    let layer = LinearLayout { d_input: 3, d_output: 5, bias: true };
    assert_eq!(layer.forward(Shape { rows: 7, cols: 3 }), Some(Shape { rows: 7, cols: 5 }));
    assert_eq!(layer.forward(Shape { rows: 7, cols: 5 }), None);
}

#[test]
fn layers_that_do_not_chain_accept_nothing() {
    let model = RegressionModel {
        input_layer: LinearLayout { d_input: 4, d_output: 8, bias: true },
        output_layer: LinearLayout { d_input: 9, d_output: 1, bias: true },
    };
    assert_eq!(model.forward(Shape { rows: 2, cols: 4 }), None);
}

#[test]
fn forward_step_pairs_predictions_with_targets() {
    let batch = UnswNb15Batcher::new().batch(Vec::new());
    let model = ExpConfig::new().model().init();
    assert_eq!(model.forward_step(&batch), Some(Shape { rows: 0, cols: 1 }));
    let narrow = RegressionModelConfig::new(FEATURE_COUNT - 1).init();
    assert_eq!(narrow.forward_step(&batch), None);
    let two_outputs = RegressionModel {
        input_layer: LinearLayout { d_input: FEATURE_COUNT, d_output: 8, bias: true },
        output_layer: LinearLayout { d_input: 8, d_output: 2, bias: true },
    };
    assert_eq!(two_outputs.forward(Shape { rows: 0, cols: 37 }), Some(Shape { rows: 0, cols: 2 }));
    assert_eq!(two_outputs.forward_step(&batch), None);
}
