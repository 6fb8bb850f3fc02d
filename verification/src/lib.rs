//! Resolution pipeline of a command-line template renderer: which data file
//! feeds a template, how the template is rendered, and where the rendered
//! text is written.

pub mod cli;
pub mod data;
pub mod engine;
pub mod failure;
pub mod output;
pub mod path;
pub mod pipeline;
pub mod render;
pub mod scalar;
pub mod substitute;
