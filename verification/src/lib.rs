//! Names, expressions and URIs of an embedded SQL database.

pub mod ast;
pub mod double;
pub mod equal_parts;
pub mod equivalence;
pub mod equivalent_parts;
pub mod error;
pub mod ident;
pub mod loader;
pub mod name;
pub mod operations;
pub mod outcome;
pub mod percent;
pub mod reflexivity;
pub mod rewriting;
pub mod same;
pub mod schema;
pub mod schema_laws;
pub mod simulator;
pub mod symmetry;
pub mod text;
pub mod text_laws;
pub mod transitivity;
pub mod uri;
pub mod uri_laws;
