//! The records that flow through the pipeline and the document it produces.

pub mod cli;
pub mod errors;
pub mod new_model;
pub mod rvtools;
