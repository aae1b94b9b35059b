//! The simulator: plans of interactions with a database, and a shadow of what
//! the database should hold.

pub mod cli;
pub mod env;
pub mod execution;
pub mod execution_laws;
pub mod generation;
pub mod generation_laws;
pub mod laws;
pub mod model;
pub mod model_laws;
pub mod operations;
pub mod plan;
pub mod plan_laws;
pub mod rendering;
