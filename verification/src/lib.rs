//! Connector scan protocol for foreign data wrappers.
//!
//! A connector lets a relational engine scan an external, paginated data
//! source as if it were a table. This crate holds the parts every connector
//! shares: the check of the declared columns against what the source offers,
//! the batched pull cursor, the mapping of one source record to one row of
//! typed cells, and the classification of failures.
//!
//! The crate performs no I/O. Where a scan needs a page from the remote
//! source, the cursor answers with a [`cursor::FetchRequest`]; the caller
//! performs the fetch and hands the outcome back.

pub mod cell;
pub mod cognito;
pub mod cursor;
pub mod error;
pub mod mapper;
pub mod options;
pub mod qdrant;
pub mod schema;
pub mod session;
pub mod source;
pub mod text;
pub mod timestamp;
