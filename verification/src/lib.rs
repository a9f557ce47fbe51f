//! Compile-time model of a single-inheritance, multiple-interface object
//! system: locating a type's definition inside a module body, assembling its
//! members, and deriving the identifiers, tables and dispatch rules of the
//! generated scaffolding.

pub mod access;
pub mod class;
pub mod class_emit;
pub mod custom;
pub mod derive;
pub mod diag;
pub mod emit;
pub mod items;
pub mod lookup;
pub mod members;
pub mod model;
pub mod names;
pub mod paths;
pub mod registry;
pub mod resolve;
pub mod rewrite;
pub mod screen;
pub mod type_definition;
pub mod vtable;
pub mod wrapper;
