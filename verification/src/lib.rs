//! Lowering of type references, as they are written in source, to type
//! terms, and the declared types and signatures of items.
//!
//! - [`ids`], [`conversions`]: the identities of definitions.
//! - [`type_ref`]: the syntax that is lowered.
//! - [`ty`], [`debruijn`], [`binders`]: type terms, their model, and values
//!   under binders.
//! - [`db`], [`generics`], [`traits`], [`store`]: the program as lowering
//!   reads it, with the answers of queries that were evaluated before.
//! - [`semantics`]: what lowering computes, as mathematical functions.
//! - [`lower`], [`queries`], [`field_map`], [`pred_buffer`]: lowering itself
//!   and the queries built on it.
//! - [`consistency`], [`validate`], [`laws`], [`query_laws`]: binder
//!   consistency of everything that lowering produces.
//! - [`assists`]: the assist that adds `is_empty` next to `len`.
pub mod ids;
pub mod ty;
pub mod conversions;
pub mod type_ref;
pub mod debruijn;
pub mod binders;
pub mod db;
pub mod generics;
pub mod traits;
pub mod pred_buffer;
pub mod semantics;
pub mod consistency;
pub mod validate;
pub mod store;
pub mod laws;
pub mod lower;
pub mod queries;
pub mod query_laws;
pub mod field_map;
pub mod assists;
