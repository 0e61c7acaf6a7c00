//! Messages of the HTTP pipeline protocol, as the client builds and reads
//! them. Their JSON form is produced and parsed by the transport.
use vstd::prelude::*;

use crate::proto::{self, BatchResult, StmtResult};
use crate::statement::Statement;

verus! {

/// One request on a stream.
pub enum StreamRequest {
    /// Close the stream.
    Close,
    /// Execute one statement.
    Execute(Statement),
    /// Execute the statements as the steps of a batch.
    Batch(Vec<Statement>),
}

/// The body of a pipeline request: the baton of the stream to continue, if
/// any, and the requests to perform on it.
pub struct ClientMsg {
    pub baton: Option<String>,
    pub requests: Vec<StreamRequest>,
}

/// The result of one successful stream request.
pub enum StreamResponse {
    Close,
    Execute(StmtResult),
    Batch(BatchResult),
}

/// The outcome of one stream request.
pub enum Response {
    Success(StreamResponse),
    Failure(proto::Error),
}

/// The body of a pipeline response: the baton with which to continue the
/// stream, the base URL to use for the next request, and one response per
/// request.
pub struct ServerMsg {
    pub baton: Option<String>,
    pub base_url: Option<String>,
    pub results: Vec<Response>,
}

} // verus!
