//! Typed deserialization of CQL column values.
//!
//! A query response hands back, per column and row, an optional byte cell
//! together with a column type descriptor. This crate turns such cells into
//! statically typed Rust values through a two-phase protocol: `type_check`
//! validates the descriptor once per result shape, `decode` converts one cell.
//! Nullability (`Option`) and the protocol's empty-but-present quirk
//! (`MaybeEmpty`) are handled by adapters that compose over any binding.

pub mod bridge;
pub mod coltype;
pub mod display;
pub mod encoding;
pub mod errors;
pub mod laws;
pub mod slots;
pub mod value;
