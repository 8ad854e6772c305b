pub mod cleaner;
pub mod cli;
