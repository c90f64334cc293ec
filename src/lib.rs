//! Small verified building blocks: a hybrid inline/heap vector, a tagged
//! result type, an expression evaluator, a BSN validator and a few helpers.

pub mod local_storage_vec;
pub mod roc_result;
pub mod expr;
pub mod bsn;
pub mod fizzbuzz;
pub mod printer;
pub mod config;
pub mod quiz;
