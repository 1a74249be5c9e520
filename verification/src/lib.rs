//! A to-do list kept as one JSON document.
//!
//! The crate holds the rules of the store: what the document looks like,
//! how a list becomes a document and a document a list, where the data
//! file lives, and which failure a caller is told about. Reading and
//! writing files is left to the caller.

pub mod envelope;
pub mod error;
pub mod item;
pub mod json;
pub mod location;
pub mod store;
pub mod text;

pub use error::StoreError;
pub use item::{TodoData, TodoItem};
