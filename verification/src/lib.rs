//! A small persistence core for "modpack version" records: a pinned
//! combination of a modpack and a target game version.
//!
//! The `model` module gives the mathematical semantics of the store's
//! contents and the laws that hold of them; the `sql` module is the
//! trusted boundary to the relational store, a `Store` handle whose ghost
//! contents the statement wrappers' contracts track; the `version` module
//! holds the typestate entity and its lifecycle operations, each proved
//! to change the store's contents exactly as the model says.

pub mod model;
pub mod sql;
pub mod version;
