pub mod reverser;
pub mod cli;
