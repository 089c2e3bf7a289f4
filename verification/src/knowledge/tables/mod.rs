//! The keyword, type and function tables.

pub mod functions;
pub mod keywords;
pub mod types;
