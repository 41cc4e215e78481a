//! Command logic of a duckscript SDK subset: process launching, alias commands
//! and a handful of standard commands, with their contracts.

pub mod commands;
pub mod types;
pub mod utils;
