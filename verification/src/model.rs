//! The architecture of the regression model: two linear layers with a
//! rectifier between them, and the shapes that pass through them.
//!
//! The weights are real numbers and live with the caller. What is fixed
//! here is what the caller must allocate and which tables the model accepts.

use crate::batch::UnswNb15Batch;
use crate::data::FEATURE_COUNT;
use vstd::prelude::*;

verus! {

/// The width of the hidden layer unless the configuration says otherwise.
pub const DEFAULT_HIDDEN_SIZE: usize = 64;

/// The dimensions of a linear layer: it maps rows of `d_input` columns to
/// rows of `d_output` columns, adding a bias where `bias` is set.
#[derive(Debug, Clone, Copy, PartialEq, Eq, Structural)]
pub struct LinearLayout {
    pub d_input: usize,
    pub d_output: usize,
    pub bias: bool,
}

/// The number of rows and columns of a table.
#[derive(Debug, Clone, Copy, PartialEq, Eq, Structural)]
pub struct Shape {
    pub rows: usize,
    pub cols: usize,
}

/// What a model is made from: the number of input features and the width of
/// the hidden layer.
#[derive(Debug, Clone, Copy, PartialEq, Eq, Structural)]
pub struct RegressionModelConfig {
    pub num_features: usize,
    pub hidden_size: usize,
}

/// The layers of a regression model, input side first.
#[derive(Debug, Clone, Copy, PartialEq, Eq, Structural)]
pub struct RegressionModel {
    pub input_layer: LinearLayout,
    pub output_layer: LinearLayout,
}

impl LinearLayout {
    /// The shape that the layer makes of a table: the same rows with
    /// `d_output` columns, provided that the table has `d_input` columns.
    pub open spec fn spec_forward(&self, input: Shape) -> Option<Shape> {
        if input.cols == self.d_input {
            Some(Shape { rows: input.rows, cols: self.d_output })
        } else {
            None
        }
    }

    /// Passes a shape through the layer.
    pub fn forward(&self, input: Shape) -> (output: Option<Shape>)
        ensures
            output == self.spec_forward(input),
    {
        if input.cols == self.d_input {
            Some(Shape { rows: input.rows, cols: self.d_output })
        } else {
            None
        }
    }
}

impl RegressionModelConfig {
    /// A configuration for `num_features` inputs and the default hidden
    /// width.
    pub fn new(num_features: usize) -> (config: Self)
        ensures
            config.num_features == num_features,
            config.hidden_size == DEFAULT_HIDDEN_SIZE,
    {
        RegressionModelConfig { num_features, hidden_size: DEFAULT_HIDDEN_SIZE }
    }

    /// The same configuration with another hidden width.
    pub fn with_hidden_size(self, hidden_size: usize) -> (config: Self)
        ensures
            config.num_features == self.num_features,
            config.hidden_size == hidden_size,
    {
        RegressionModelConfig { num_features: self.num_features, hidden_size }
    }

    /// The model that the configuration describes: a biased layer from the
    /// features to the hidden width, and a biased layer from the hidden
    /// width to one prediction.
    pub open spec fn spec_init(&self) -> RegressionModel {
        RegressionModel {
            input_layer: LinearLayout {
                d_input: self.num_features,
                d_output: self.hidden_size,
                bias: true,
            },
            output_layer: LinearLayout { d_input: self.hidden_size, d_output: 1, bias: true },
        }
    }

    /// Lays out the model's two layers.
    pub fn init(&self) -> (model: RegressionModel)
        ensures
            model == self.spec_init(),
    {
        RegressionModel {
            input_layer: LinearLayout {
                d_input: self.num_features,
                d_output: self.hidden_size,
                bias: true,
            },
            output_layer: LinearLayout { d_input: self.hidden_size, d_output: 1, bias: true },
        }
    }
}

impl RegressionModel {
    /// The shape of the model's output for a table of inputs: the input
    /// layer's result, unchanged in shape by the rectifier, passed through
    /// the output layer. There is none where a layer does not fit.
    pub open spec fn spec_forward(&self, input: Shape) -> Option<Shape> {
        match self.input_layer.spec_forward(input) {
            Some(hidden) => self.output_layer.spec_forward(hidden),
            None => None,
        }
    }

    /// Passes a shape through both layers.
    pub fn forward(&self, input: Shape) -> (output: Option<Shape>)
        ensures
            output == self.spec_forward(input),
    {
        match self.input_layer.forward(input) {
            Some(hidden) => self.output_layer.forward(hidden),
            None => None,
        }
    }

    /// The shape shared by the predictions and the targets of one step on
    /// `batch`: the targets, a column of `rows`, are compared with the
    /// output as a table of `rows` by one. There is none where the model
    /// does not accept the batch or does not end in a single prediction.
    pub fn forward_step(&self, batch: &UnswNb15Batch) -> (output: Option<Shape>)
        requires
            batch.wf(),
        ensures
            output == (match self.spec_forward(
                Shape { rows: batch@.targets.len() as usize, cols: FEATURE_COUNT },
            ) {
                Some(shape) if shape.cols == 1 => Some(shape),
                _ => None,
            }),
    {
        let input = Shape { rows: batch.rows(), cols: FEATURE_COUNT };
        match self.forward(input) {
            Some(shape) => if shape.cols == 1 {
                Some(shape)
            } else {
                None
            },
            None => None,
        }
    }
}

/// A model laid out from a configuration maps a table of `rows` by
/// `num_features` to one prediction per row, whatever the hidden width, and
/// accepts no table of another width.
pub proof fn lemma_model_output_shape(config: RegressionModelConfig, input: Shape)
    ensures
        config.spec_init().spec_forward(input) == (if input.cols == config.num_features {
            Some(Shape { rows: input.rows, cols: 1 })
        } else {
            None
        }),
{
}

} // verus!
