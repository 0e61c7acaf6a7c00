//! The HTTP pipeline backend: what to send, and what to make of the answer.
//! Interactive transactions continue a server-side stream through the baton
//! that each response hands back; the transport only carries the messages.
use vstd::prelude::*;
use vstd::string::StrSliceExecFns;
use vstd::string::StringExecFns;

use crate::error::{DecodeError, Error, Misuse};
use crate::pipeline::{ClientMsg, Response, ServerMsg, StreamRequest, StreamResponse};
use crate::proto::{opt_string_view, BatchResult};
use crate::result::{result_set_of, ResultSet};
use crate::session::SessionTable;
use crate::statement::Statement;

verus! {

/// The state of one transaction's stream: the baton that continues it and
/// the base URL that the server asked to be used next.
pub struct Cookie {
    pub baton: Option<String>,
    pub base_url: Option<String>,
}

pub struct CookieView {
    pub baton: Option<Seq<char>>,
    pub base_url: Option<Seq<char>>,
}

impl View for Cookie {
    type V = CookieView;

    open spec fn view(&self) -> CookieView {
        CookieView { baton: opt_string_view(self.baton), base_url: opt_string_view(self.base_url) }
    }
}

/// A request for the transport to send: where, with which authorization
/// header, and what.
pub struct Request {
    pub url: String,
    pub auth: String,
    pub msg: ClientMsg,
}

/// The protocol state of an HTTP pipeline client.
pub struct Client {
    cookies: SessionTable<Cookie>,
    url_for_queries: String,
    auth: String,
}

pub struct ClientView {
    /// The live transactions and their stream state.
    pub sessions: Map<u64, CookieView>,
    /// The id that the next transaction gets.
    pub next_id: u64,
    /// Where requests go that continue no stream.
    pub url_for_queries: Seq<char>,
    /// The authorization header sent with every request.
    pub auth: Seq<char>,
}

impl View for Client {
    type V = ClientView;

    closed spec fn view(&self) -> ClientView {
        ClientView {
            sessions: self.cookies@.sessions.map_values(|c: Cookie| c@),
            next_id: self.cookies@.next_id,
            url_for_queries: self.url_for_queries@,
            auth: self.auth@,
        }
    }
}

/// Whether a URL names its scheme.
pub open spec fn has_scheme(url: Seq<char>) -> bool {
    exists|i: int| 0 <= i && i + 3 <= url.len() && #[trigger] url.subrange(i, i + 3) == "://"@
}

/// The pipeline endpoint of a database URL; a URL without a scheme is taken
/// to be an `https` one.
pub open spec fn pipeline_url(url: Seq<char>) -> Seq<char> {
    (if has_scheme(url) {
        url
    } else {
        "https://"@ + url
    }) + "v2/pipeline"@
}

/// Where the next request of transaction `tx` goes, and which baton it
/// carries; nothing where the transaction has no live session.
pub open spec fn target(v: ClientView, tx: u64) -> Option<(Option<Seq<char>>, Seq<char>)> {
    if v.sessions.contains_key(tx) {
        let c = v.sessions[tx];
        Some(
            (
                c.baton,
                match c.base_url {
                    Some(u) => u,
                    None => v.url_for_queries,
                },
            ),
        )
    } else {
        None
    }
}

/// The stream state that a response hands back: a baton and the base URL
/// for the next request. A failed exchange, or a response without a baton,
/// hands back none.
pub open spec fn continuation(resp: Result<ServerMsg, Error>) -> Option<CookieView> {
    match resp {
        Ok(m) => match m.baton {
            Some(b) => Some(CookieView { baton: Some(b@), base_url: opt_string_view(m.base_url) }),
            None => None,
        },
        Err(_) => None,
    }
}

/// The state after a response in transaction `tx`: the session keeps the
/// new stream state, or ends where there is none to keep.
pub open spec fn after_response(v: ClientView, tx: u64, c: Option<CookieView>) -> ClientView {
    if !v.sessions.contains_key(tx) {
        v
    } else {
        ClientView {
            sessions: match c {
                Some(c) => v.sessions.insert(tx, c),
                None => v.sessions.remove(tx),
            },
            next_id: v.next_id,
            url_for_queries: v.url_for_queries,
            auth: v.auth,
        }
    }
}

/// The state after `COMMIT` or `ROLLBACK` of transaction `tx`: its session
/// is gone, whatever the answer was.
pub open spec fn after_end(v: ClientView, tx: u64) -> ClientView {
    ClientView {
        sessions: v.sessions.remove(tx),
        next_id: v.next_id,
        url_for_queries: v.url_for_queries,
        auth: v.auth,
    }
}

/// Whether `r` is what the responses to a single `Execute` request come to.
pub open spec fn execute_realizes(results: Seq<Response>, r: Result<ResultSet, Error>) -> bool {
    if results.len() != 1 {
        r == Err::<ResultSet, Error>(
            Error::Decode(DecodeError::ResponseCount { actual: results.len() as usize }),
        )
    } else {
        match results[0] {
            Response::Success(StreamResponse::Execute(x)) => r matches Ok(rs) && rs@ == result_set_of(
                x@,
            ),
            Response::Success(_) => r == Err::<ResultSet, Error>(
                Error::Decode(DecodeError::UnexpectedResponse),
            ),
            Response::Failure(e) => r matches Err(Error::Statement(m)) && m@ == e.message@,
        }
    }
}

/// Whether `r` is what the responses to a `Batch` request followed by a
/// `Close` come to. The answer to the `Close` may be missing.
pub open spec fn batch_realizes(results: Seq<Response>, r: Result<BatchResult, Error>) -> bool {
    if results.len() == 0 || results.len() > 2 {
        r == Err::<BatchResult, Error>(
            Error::Decode(DecodeError::ResponseCount { actual: results.len() as usize }),
        )
    } else {
        match results[0] {
            Response::Success(StreamResponse::Batch(x)) => r == Ok::<BatchResult, Error>(x),
            Response::Success(_) => r == Err::<BatchResult, Error>(
                Error::Decode(DecodeError::UnexpectedResponse),
            ),
            Response::Failure(e) => r matches Err(Error::Statement(m)) && m@ == e.message@,
        }
    }
}

fn has_scheme_separator(s: &str) -> (r: bool)
    ensures
        r == has_scheme(s@),
{
    proof {
        reveal_strlit("://");
        assert("://"@.len() == 3);
        assert("://"@[0] == ':' && "://"@[1] == '/' && "://"@[2] == '/');
    }
    let n = s.unicode_len();
    if n < 3 {
        return false;
    }
    let mut i: usize = 0;
    while i <= n - 3
        invariant
            n == s@.len(),
            n >= 3,
            "://"@.len() == 3,
            "://"@[0] == ':' && "://"@[1] == '/' && "://"@[2] == '/',
            forall|j: int| 0 <= j < i ==> #[trigger] s@.subrange(j, j + 3) != "://"@,
        decreases n - i,
    {
        let ghost sub = s@.subrange(i as int, i + 3);
        let c0 = s.get_char(i);
        let c1 = s.get_char(i + 1);
        let c2 = s.get_char(i + 2);
        assert(sub[0] == c0 && sub[1] == c1 && sub[2] == c2);
        if c0 == ':' && c1 == '/' && c2 == '/' {
            assert(sub =~= "://"@);
            return true;
        }
        i = i + 1;
    }
    false
}

/// The answer to a single `Execute` request.
fn execute_result(results: Vec<Response>) -> (r: Result<ResultSet, Error>)
    ensures
        execute_realizes(results@, r),
{
    if results.len() != 1 {
        return Err(Error::Decode(DecodeError::ResponseCount { actual: results.len() }));
    }
    match &results[0] {
        Response::Success(StreamResponse::Execute(x)) => Ok(ResultSet::from_stmt_result(x)),
        Response::Success(_) => Err(Error::Decode(DecodeError::UnexpectedResponse)),
        Response::Failure(e) => Err(Error::Statement(e.message.clone())),
    }
}

impl Client {
    /// The client is well formed at all times.
    pub closed spec fn well_formed(&self) -> bool {
        self.cookies@.well_formed()
    }

    /// A client of the database at `url`, authorized by the bearer `token`.
    /// A URL without a scheme is taken to be an `https` one.
    pub fn new(url: &str, token: &str) -> (r: Client)
        ensures
            r.well_formed(),
            r@.sessions == Map::<u64, CookieView>::empty(),
            r@.next_id == 1,
            r@.url_for_queries == pipeline_url(url@),
            r@.auth == "Bearer "@ + token@,
    {
        let mut base = if has_scheme_separator(url) {
            url.to_string()
        } else {
            let mut b = String::from_str("https://");
            b.append(url);
            b
        };
        base.append("v2/pipeline");
        let mut auth = String::from_str("Bearer ");
        auth.append(token);
        let r = Client { cookies: SessionTable::new(), url_for_queries: base, auth };
        assert(r@.sessions =~= Map::<u64, CookieView>::empty());
        r
    }

    /// The request that executes `stmts` as an independent batch on a fresh
    /// stream, and closes the stream.
    pub fn batch_request(&self, stmts: Vec<Statement>) -> (r: Request)
        ensures
            r.url@ == self@.url_for_queries,
            r.auth@ == self@.auth,
            r.msg.baton is None,
            r.msg.requests@ == seq![StreamRequest::Batch(stmts), StreamRequest::Close],
    {
        let mut requests: Vec<StreamRequest> = Vec::new();
        requests.push(StreamRequest::Batch(stmts));
        requests.push(StreamRequest::Close);
        let r = Request {
            url: self.url_for_queries.clone(),
            auth: self.auth.clone(),
            msg: ClientMsg { baton: None, requests },
        };
        assert(r.msg.requests@ =~= seq![StreamRequest::Batch(stmts), StreamRequest::Close]);
        r
    }

    /// The outcome of a batch request: the batch result, or the error that
    /// the whole request came to.
    pub fn batch_response(resp: ServerMsg) -> (r: Result<BatchResult, Error>)
        ensures
            batch_realizes(resp.results@, r),
    {
        let mut results = resp.results;
        let n = results.len();
        if n == 0 || n > 2 {
            return Err(Error::Decode(DecodeError::ResponseCount { actual: n }));
        }
        match results.swap_remove(0) {
            Response::Success(StreamResponse::Batch(x)) => Ok(x),
            Response::Success(_) => Err(Error::Decode(DecodeError::UnexpectedResponse)),
            Response::Failure(e) => Err(Error::Statement(e.message)),
        }
    }

    /// The request that executes `stmt` outside of any transaction.
    pub fn execute_request(&self, stmt: Statement) -> (r: Request)
        ensures
            r.url@ == self@.url_for_queries,
            r.auth@ == self@.auth,
            r.msg.baton is None,
            r.msg.requests@ == seq![StreamRequest::Execute(stmt)],
    {
        let mut requests: Vec<StreamRequest> = Vec::new();
        requests.push(StreamRequest::Execute(stmt));
        let r = Request {
            url: self.url_for_queries.clone(),
            auth: self.auth.clone(),
            msg: ClientMsg { baton: None, requests },
        };
        assert(r.msg.requests@ =~= seq![StreamRequest::Execute(stmt)]);
        r
    }

    /// The outcome of a statement executed outside of any transaction.
    pub fn execute_response(resp: ServerMsg) -> (r: Result<ResultSet, Error>)
        ensures
            execute_realizes(resp.results@, r),
    {
        execute_result(resp.results)
    }

    /// Opens the session of a new interactive transaction and returns its
    /// id. The session has no baton yet: its first request opens a stream.
    pub fn begin(&mut self) -> (r: Result<u64, Error>)
        requires
            old(self).well_formed(),
        ensures
            final(self).well_formed(),
            match r {
                Ok(id) => {
                    &&& id == old(self)@.next_id
                    &&& !old(self)@.sessions.contains_key(id)
                    &&& final(self)@.sessions == old(self)@.sessions.insert(
                        id,
                        CookieView { baton: None, base_url: None },
                    )
                    &&& final(self)@.next_id == id + 1
                    &&& final(self)@.url_for_queries == old(self)@.url_for_queries
                    &&& final(self)@.auth == old(self)@.auth
                },
                Err(e) => {
                    &&& e == Error::Misuse(Misuse::TransactionIdsExhausted)
                    &&& final(self)@ == old(self)@
                },
            },
    {
        let r = self.cookies.open(Cookie { baton: None, base_url: None });
        proof {
            if r is Ok {
                assert(self@.sessions =~= old(self)@.sessions.insert(
                    r->Ok_0,
                    CookieView { baton: None, base_url: None },
                ));
            }
        }
        r
    }

    /// The request that executes `stmt` in transaction `tx_id`: it continues
    /// the transaction's stream, at the URL the server last asked for.
    pub fn tx_request(&self, tx_id: u64, stmt: Statement) -> (r: Result<Request, Error>)
        ensures
            match target(self@, tx_id) {
                Some((baton, url)) => r matches Ok(req) && {
                    &&& req.url@ == url
                    &&& req.auth@ == self@.auth
                    &&& opt_string_view(req.msg.baton) == baton
                    &&& req.msg.requests@ == seq![StreamRequest::Execute(stmt)]
                },
                None => r == Err::<Request, Error>(
                    Error::Misuse(Misuse::NoSuchSession { tx_id }),
                ),
            },
    {
        let mut requests: Vec<StreamRequest> = Vec::new();
        requests.push(StreamRequest::Execute(stmt));
        assert(requests@ =~= seq![StreamRequest::Execute(stmt)]);
        self.stream_request(tx_id, requests)
    }

    fn stream_request(&self, tx_id: u64, requests: Vec<StreamRequest>) -> (r: Result<
        Request,
        Error,
    >)
        ensures
            match target(self@, tx_id) {
                Some((baton, url)) => r matches Ok(req) && {
                    &&& req.url@ == url
                    &&& req.auth@ == self@.auth
                    &&& opt_string_view(req.msg.baton) == baton
                    &&& req.msg.requests == requests
                },
                None => r == Err::<Request, Error>(
                    Error::Misuse(Misuse::NoSuchSession { tx_id }),
                ),
            },
    {
        match self.cookies.get(tx_id) {
            Some(c) => {
                let url = match &c.base_url {
                    Some(u) => u.clone(),
                    None => self.url_for_queries.clone(),
                };
                let baton = match &c.baton {
                    Some(b) => Some(b.clone()),
                    None => None,
                };
                Ok(Request { url, auth: self.auth.clone(), msg: ClientMsg { baton, requests } })
            },
            None => Err(Error::Misuse(Misuse::NoSuchSession { tx_id })),
        }
    }

    /// Takes in the answer to a request of transaction `tx_id` (or the
    /// transport's failure) and returns the statement's outcome. The session
    /// keeps the new baton and base URL; where the answer brings no baton,
    /// the stream is gone and the session ends.
    pub fn tx_response(&mut self, tx_id: u64, resp: Result<ServerMsg, Error>) -> (r: Result<
        ResultSet,
        Error,
    >)
        requires
            old(self).well_formed(),
        ensures
            final(self).well_formed(),
            final(self)@ == after_response(old(self)@, tx_id, continuation(resp)),
            !old(self)@.sessions.contains_key(tx_id) ==> r == Err::<ResultSet, Error>(
                Error::Misuse(Misuse::NoSuchSession { tx_id }),
            ),
            old(self)@.sessions.contains_key(tx_id) ==> match resp {
                Err(e) => r == Err::<ResultSet, Error>(e),
                Ok(m) => match m.baton {
                    None => r == Err::<ResultSet, Error>(Error::Decode(DecodeError::MissingBaton)),
                    Some(_) => execute_realizes(m.results@, r),
                },
            },
    {
        if self.cookies.get(tx_id).is_none() {
            return Err(Error::Misuse(Misuse::NoSuchSession { tx_id }));
        }
        match resp {
            Err(e) => {
                self.cookies.release(tx_id);
                assert(self@.sessions =~= old(self)@.sessions.remove(tx_id));
                Err(e)
            },
            Ok(m) => {
                let ServerMsg { baton, base_url, results } = m;
                match baton {
                    None => {
                        self.cookies.release(tx_id);
                        assert(self@.sessions =~= old(self)@.sessions.remove(tx_id));
                        Err(Error::Decode(DecodeError::MissingBaton))
                    },
                    Some(b) => {
                        let c = Cookie { baton: Some(b), base_url };
                        let ghost cv = c@;
                        let _ = self.cookies.update(tx_id, c);
                        assert(self@.sessions =~= old(self)@.sessions.insert(tx_id, cv));
                        execute_result(results)
                    },
                }
            },
        }
    }

    /// Takes in the answer to the `COMMIT` or `ROLLBACK` of transaction
    /// `tx_id` and ends its session, whatever the answer. Returns the
    /// outcome of the statement, and the request that closes the stream
    /// where the server kept one open; a failure of that last request
    /// concerns nobody.
    pub fn end_response(&mut self, tx_id: u64, resp: Result<ServerMsg, Error>) -> (r: (
        Result<ResultSet, Error>,
        Option<Request>,
    ))
        requires
            old(self).well_formed(),
        ensures
            final(self).well_formed(),
            final(self)@ == after_end(old(self)@, tx_id),
            !old(self)@.sessions.contains_key(tx_id) ==> {
                &&& r.0 == Err::<ResultSet, Error>(
                    Error::Misuse(Misuse::NoSuchSession { tx_id }),
                )
                &&& r.1 is None
            },
            old(self)@.sessions.contains_key(tx_id) ==> {
                &&& match resp {
                    Err(e) => r.0 == Err::<ResultSet, Error>(e),
                    Ok(m) => match m.baton {
                        None => r.0 == Err::<ResultSet, Error>(
                            Error::Decode(DecodeError::MissingBaton),
                        ),
                        Some(_) => execute_realizes(m.results@, r.0),
                    },
                }
                &&& match target(after_response(old(self)@, tx_id, continuation(resp)), tx_id) {
                    Some((baton, url)) => r.1 matches Some(req) && {
                        &&& req.url@ == url
                        &&& req.auth@ == old(self)@.auth
                        &&& opt_string_view(req.msg.baton) == baton
                        &&& req.msg.requests@ == seq![StreamRequest::Close]
                    },
                    None => r.1 is None,
                }
            },
    {
        let out = self.tx_response(tx_id, resp);
        let ghost mid = self@;
        let mut requests: Vec<StreamRequest> = Vec::new();
        requests.push(StreamRequest::Close);
        assert(requests@ =~= seq![StreamRequest::Close]);
        let close = match self.stream_request(tx_id, requests) {
            Ok(req) => Some(req),
            Err(_) => None,
        };
        self.cookies.release(tx_id);
        assert(self@.sessions =~= mid.sessions.remove(tx_id));
        assert(mid.sessions.remove(tx_id) =~= old(self)@.sessions.remove(tx_id));
        (out, close)
    }
}

/// After an answer that hands back a baton, the next request of the same
/// transaction carries that baton, and goes to the base URL that came with
/// it, or to the default endpoint where none came.
pub proof fn lemma_next_request_carries_baton(v: ClientView, tx: u64, resp: Result<ServerMsg, Error>)
    requires
        v.sessions.contains_key(tx),
        resp matches Ok(m) && m.baton is Some,
    ensures
        target(after_response(v, tx, continuation(resp)), tx) == Some(
            (
                Some(resp->Ok_0.baton->Some_0@),
                match resp->Ok_0.base_url {
                    Some(u) => u@,
                    None => v.url_for_queries,
                },
            ),
        ),
{
}

/// Once a transaction is committed or rolled back, no request of it can be
/// made: its id has no session any more, and a new one is never opened
/// under it.
pub proof fn lemma_ended_transaction_has_no_session(v: ClientView, tx: u64)
    ensures
        target(after_end(v, tx), tx) is None,
        after_end(v, tx).next_id == v.next_id,
{
}

} // verus!
