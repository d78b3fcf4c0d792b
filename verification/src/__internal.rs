//! The cell crates, under the path by which generated code reaches them.
pub use async_once_cell;
pub use once_cell;
