//! Choosing the backend that serves a database URL.
use vstd::prelude::*;
use vstd::string::StrSliceExecFns;
use vstd::string::StringExecFns;

use crate::error::{Error, Misuse};

verus! {

/// The backends that a client can be built on.
#[derive(Debug, PartialEq, Eq, Clone, Copy)]
pub enum Backend {
    /// An embedded database file, run in process.
    Local,
    /// A server reached over a WebSocket stream.
    Hrana,
    /// A server reached through HTTP pipeline requests.
    Http,
}

/// The backend that serves URLs of a scheme; `libsql` URLs are served over
/// HTTPS.
pub open spec fn backend_of(scheme: Seq<char>) -> Option<Backend> {
    if scheme == "file"@ {
        Some(Backend::Local)
    } else if scheme == "ws"@ || scheme == "wss"@ {
        Some(Backend::Hrana)
    } else if scheme == "http"@ || scheme == "https"@ || scheme == "libsql"@ {
        Some(Backend::Http)
    } else {
        None
    }
}

fn text_is(s: &str, lit: &str) -> (r: bool)
    ensures
        r == (s@ == lit@),
{
    s.to_string() == lit.to_string()
}

/// The backend for a URL scheme; any other scheme is a misuse.
pub fn backend_for_scheme(scheme: &str) -> (r: Result<Backend, Error>)
    ensures
        match backend_of(scheme@) {
            Some(b) => r == Ok::<Backend, Error>(b),
            None => r matches Err(Error::Misuse(Misuse::UnknownScheme { scheme: s })) && s@
                == scheme@,
        },
{
    if text_is(scheme, "file") {
        Ok(Backend::Local)
    } else if text_is(scheme, "ws") || text_is(scheme, "wss") {
        Ok(Backend::Hrana)
    } else if text_is(scheme, "http") || text_is(scheme, "https") || text_is(scheme, "libsql") {
        Ok(Backend::Http)
    } else {
        Err(Error::Misuse(Misuse::UnknownScheme { scheme: scheme.to_string() }))
    }
}

/// Whether `s` begins with `prefix`.
pub open spec fn starts_with(s: Seq<char>, prefix: Seq<char>) -> bool {
    s.len() >= prefix.len() && s.subrange(0, prefix.len() as int) == prefix
}

/// A `libsql://` URL names its server as a URL of the backend's own scheme
/// does: `https` for HTTP, `wss` for WebSocket.
pub open spec fn rescheme(url: Seq<char>, scheme: Seq<char>) -> Seq<char> {
    let prefix = "libsql://"@;
    if starts_with(url, prefix) {
        scheme + "://"@ + url.subrange(prefix.len() as int, url.len() as int)
    } else {
        url
    }
}

/// The text of `s` after `prefix`, where `s` begins with it.
fn after_prefix(s: &str, prefix: &str) -> (r: Option<String>)
    ensures
        starts_with(s@, prefix@) ==> (r matches Some(t) && t@ == s@.subrange(
            prefix@.len() as int,
            s@.len() as int,
        )),
        !starts_with(s@, prefix@) ==> r is None,
{
    let n = s.unicode_len();
    let m = prefix.unicode_len();
    if n >= m && text_is(s.substring_char(0, m), prefix) {
        Some(s.substring_char(m, n).to_string())
    } else {
        None
    }
}

/// Rewrites a `libsql://` URL to the URL of the same server under `scheme`;
/// other URLs stay as they are.
pub fn rewrite_libsql_url(url: &str, scheme: &str) -> (r: String)
    ensures
        r@ == rescheme(url@, scheme@),
{
    match after_prefix(url, "libsql://") {
        Some(rest) => {
            let mut r = scheme.to_string();
            r.append("://");
            r.append(rest.as_str());
            r
        },
        None => url.to_string(),
    }
}

/// The path of the database file that a `file:///` URL names; any other
/// URL is a misuse for the embedded backend.
pub fn local_path(url: &str) -> (r: Result<String, Error>)
    ensures
        starts_with(url@, "file:///"@) ==> (r matches Ok(p) && p@ == url@.subrange(
            8,
            url@.len() as int,
        )),
        !starts_with(url@, "file:///"@) ==> r matches Err(Error::Misuse(Misuse::BadConfig { .. })),
{
    proof {
        reveal_strlit("file:///");
    }
    match after_prefix(url, "file:///") {
        Some(path) => Ok(path),
        None => Err(
            Error::Misuse(
                Misuse::BadConfig { reason: "Local URL needs to start with file:///".to_string() },
            ),
        ),
    }
}

/// The position of the first pair whose key is `key`.
pub open spec fn first_key_index(pairs: Seq<(String, String)>, key: Seq<char>) -> Option<int>
    decreases pairs.len(),
{
    if pairs.len() == 0 {
        None
    } else if pairs.last().0@ == key && first_key_index(pairs.drop_last(), key) is None {
        Some(pairs.len() - 1)
    } else {
        first_key_index(pairs.drop_last(), key)
    }
}

/// Takes the first query pair whose key is `key` out of `pairs` and returns
/// its value; the last pair takes the place of the one taken out.
pub fn take_query_param(pairs: &mut Vec<(String, String)>, key: &str) -> (r: Option<String>)
    ensures
        match first_key_index(old(pairs)@, key@) {
            Some(i) => r == Some(old(pairs)@[i].1) && final(pairs)@ == old(pairs)@.update(
                i,
                old(pairs)@.last(),
            ).drop_last(),
            None => r is None && final(pairs)@ == old(pairs)@,
        },
{
    let k = key.to_string();
    let mut i: usize = 0;
    while i < pairs.len()
        invariant
            i <= pairs@.len(),
            k@ == key@,
            pairs@ == old(pairs)@,
            forall|j: int| 0 <= j < i ==> #[trigger] pairs@[j].0@ != key@,
        decreases pairs@.len() - i,
    {
        if pairs[i].0 == k {
            proof {
                lemma_first_key_at(pairs@, key@, i as int);
            }
            let (_, v) = pairs.swap_remove(i);
            return Some(v);
        }
        i = i + 1;
    }
    proof {
        lemma_no_key(pairs@, key@);
    }
    None
}

proof fn lemma_first_key_at(pairs: Seq<(String, String)>, key: Seq<char>, i: int)
    requires
        0 <= i < pairs.len(),
        pairs[i].0@ == key,
        forall|j: int| 0 <= j < i ==> #[trigger] pairs[j].0@ != key,
    ensures
        first_key_index(pairs, key) == Some(i),
    decreases pairs.len(),
{
    if i < pairs.len() - 1 {
        lemma_first_key_at(pairs.drop_last(), key, i);
    } else {
        lemma_no_key(pairs.drop_last(), key);
    }
}

proof fn lemma_no_key(pairs: Seq<(String, String)>, key: Seq<char>)
    requires
        forall|j: int| 0 <= j < pairs.len() ==> #[trigger] pairs[j].0@ != key,
    ensures
        first_key_index(pairs, key) is None,
    decreases pairs.len(),
{
    if pairs.len() > 0 {
        lemma_no_key(pairs.drop_last(), key);
    }
}

/// The value of the first query pair whose key is `key`.
pub fn query_param(pairs: &Vec<(String, String)>, key: &str) -> (r: Option<String>)
    ensures
        match first_key_index(pairs@, key@) {
            Some(i) => r == Some(pairs@[i].1),
            None => r is None,
        },
{
    let k = key.to_string();
    let mut i: usize = 0;
    while i < pairs.len()
        invariant
            i <= pairs@.len(),
            k@ == key@,
            forall|j: int| 0 <= j < i ==> #[trigger] pairs@[j].0@ != key@,
        decreases pairs@.len() - i,
    {
        if pairs[i].0 == k {
            proof {
                lemma_first_key_at(pairs@, key@, i as int);
            }
            return Some(pairs[i].1.clone());
        }
        i = i + 1;
    }
    proof {
        lemma_no_key(pairs@, key@);
    }
    None
}

} // verus!
