pub mod cli;
pub mod merger;
