pub mod control;
pub mod core_functions;
pub mod data;
pub mod error;
pub mod evaluation;
pub mod host;
pub mod register_ops;
pub mod description;
pub mod laws;
pub mod step_laws;
