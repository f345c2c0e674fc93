//! Generation engine for a disk-filling directory tree: parses a size
//! budget, classifies the destination path, and plans randomly named
//! subdirectories holding randomly sized files of random lowercase content
//! until the accumulated size meets or exceeds the budget. Writing the
//! planned tree to disk is left to the surrounding program; every
//! decision — parsing, validation, draws, names, sizes, progress — is
//! made and verified here.

pub mod builder;
pub mod errors;
pub mod parser;
pub mod paths;
pub mod random;
pub mod text;
