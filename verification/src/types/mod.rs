pub mod command;
pub mod handles;
pub mod result;
