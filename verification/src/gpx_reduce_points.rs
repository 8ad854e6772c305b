pub mod simplifier;
pub mod cli;
