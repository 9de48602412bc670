//! Renders resolved declarations of a program back into surface syntax:
//! functions, structs, enums, unions, traits, aliases, modules, macros and
//! their generic parameter lists and where clauses.
//!
//! Every renderer appends to a [`sink::Sink`] and its contract states the exact
//! text that it appends.
pub mod sink;
pub mod types;
pub mod generics;
pub mod function;
pub mod adt;
pub mod items;
pub mod params;
pub mod decl;
pub mod laws;
