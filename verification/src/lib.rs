//! Cleaning a crate's syntax tree into the form its documentation shows.
pub mod ast;
pub mod attrs;
pub mod clean;
pub mod context;
pub mod copies;
pub mod doctree;
pub mod items;
pub mod text;
pub mod types;
