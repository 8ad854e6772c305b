pub mod merger;
pub mod cli;
