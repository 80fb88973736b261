//! Tools for working on syntax trees: a tree model, a read-only visitor, a
//! rewriting transformer, a lint rule engine and generators of new tree
//! fragments; with them a trace logger and a small user directory.
pub mod analysis;
pub mod buffers;
pub mod derive_methods;
pub mod directory;
pub mod generator;
pub mod linter;
pub mod retry;
pub mod text;
pub mod trace;
pub mod transformer;
pub mod tree;
pub mod visitor;
