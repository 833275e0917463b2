//! Transfers tables between a relational data source and columnar files: type mapping,
//! batch sizing, file splitting and the transfer buffer lifecycle.
pub mod sizing;
pub mod insert;
pub mod buffer;
pub mod model;
pub mod mapping;
pub mod text;
pub mod digits;
pub mod split;
pub mod calendar;
