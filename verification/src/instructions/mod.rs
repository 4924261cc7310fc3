//! The instructions: what each one decides and changes, on plain values.

pub mod buy;
pub mod complete_milestone;
pub mod create_milestone;
pub mod create_project;
pub mod fee;
pub mod initialize;
pub mod sell;
pub mod set_params;
