pub mod splitter;
pub mod cli;
