//! The records that the instructions read and write.

pub mod address;
pub mod global;
pub mod milestone;
pub mod project;
pub mod team_member;
pub mod token_details;
