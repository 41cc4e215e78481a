pub mod exec;
pub mod pckg;
pub mod text;
