//! A client library for libSQL databases.
//!
//! The verified core of the client: the value and result model, the
//! transactional batch protocol, the session table that keeps one
//! continuation token per interactive transaction, the decisions of the
//! HTTP pipeline protocol, the result assembly of the embedded backend,
//! and the JSON codec of the statement-array protocol.
pub mod batch;
pub mod client;
pub mod codec;
pub mod error;
pub mod http;
pub mod local;
pub mod pipeline;
pub mod proto;
pub mod result;
pub mod session;
pub mod statement;
pub mod value;

pub use error::{DecodeError, Error, Misuse};
pub use proto::{BatchResult, Col, StmtResult};
pub use result::{ResultSet, Row};
pub use statement::Statement;
pub use value::Value;
