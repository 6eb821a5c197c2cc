//! Generation of Rust bindings to a native graphics API from a registry of its
//! commands, constants and types.
//!
//! A [`registry::Registry`] describes one API surface. Each generator in
//! [`generators`] turns it into the source text of a binding set with its own
//! loading discipline. [`loader`] states what the emitted loading code does when
//! it runs: how a symbol and its fallbacks are probed, and what a slot holds
//! afterwards.

pub mod generators;
pub mod loader;
pub mod registry;
pub mod text;
