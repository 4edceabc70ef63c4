//! Verified core of a tabular regression pipeline for network-flow records.
//!
//! The crate proves the integer logic of the pipeline: how a dataset is cut
//! into a training and a test partition, how records are laid out as a batch
//! and which values bound each column, which shapes flow through the model,
//! and when training stops. Measurements and losses are real numbers; this
//! crate never computes with them. It only compares them, through ordered
//! integer keys that the caller derives from the numbers.

pub mod batch;
pub mod data;
pub mod key;
pub mod model;
pub mod partition;
pub mod training;
