pub mod cli;
pub mod converter;
