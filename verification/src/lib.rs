//! Core of a block scaffolding tool: derives the two canonical forms of a
//! block name, renders per-field declaration lines, and fills the two
//! generated documents by pure string interpolation.

pub mod compose;
pub mod fields;
pub mod name;
mod text;
