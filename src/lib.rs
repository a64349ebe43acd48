//! Counts the formulae of a package catalog that depend on a given
//! language, build system or library, and gathers the distinct build
//! dependencies of the whole catalog.
pub mod args;
pub mod cache;
pub mod catalog;
pub mod formula;
pub mod laws;
pub mod matcher;
