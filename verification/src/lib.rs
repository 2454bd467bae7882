//! The planning core of an embedded vector database table engine.
//!
//! A table is a collection of rows of one schema, kept as a versioned
//! dataset on local or object storage. This library decides what each
//! operation on a table asks of the dataset, and proves that the decision is
//! the one that its contract states:
//!
//! - [`query`]: the scan that answers a query, and the vector column that a
//!   search runs in;
//! - [`index`]: the column and the parameters of a vector or scalar index,
//!   with the defaults that are inferred from the schema and the number of
//!   rows;
//! - [`table`]: how rows are added and counted, how a merge insert treats
//!   each row, in which steps a table is optimized, and when a table looks
//!   at its dataset again;
//! - [`schema`]: the column types that the decisions read;
//! - [`embeddings`]: the registry of embedding functions;
//! - [`binding`]: tables and builders for callers in other languages;
//! - [`error`]: the failures that the operations answer with.
//!
//! The library does no input or output. A caller loads the schema and the
//! number of rows, asks the library, and carries out the answer.

pub mod binding;
pub mod embeddings;
pub mod error;
pub mod index;
pub mod query;
pub mod remote;
pub mod schema;
pub mod table;
pub mod text;
