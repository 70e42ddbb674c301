//! Decision logic of the daemon client.
//!
//! Every call to a daemon opens a fresh transport connection; the plumbing
//! that drives the connection lives outside the library. What is verified
//! here is what the client decides: the request target after rewriting to
//! the fixed virtual authority, the fixed `Host` header, and how a status
//! response is interpreted.

use vstd::prelude::*;
use crate::DaemonStatus;
use crate::json;

verus! {

/// Scheme and virtual authority used for every request sent to a daemon.
/// The transport has no real host semantics, so the authority is synthetic.
pub open spec fn spec_virtual_base() -> Seq<char> {
    "http://localclient.devpod"@
}

/// Value of the `Host` header on every request sent to a daemon.
pub open spec fn spec_host_header() -> Seq<char> {
    "sh.loft.devpod.desktop"@
}

/// Path of the status request.
pub open spec fn spec_status_path() -> Seq<char> {
    "/status"@
}

/// A daemon client, bound to the local endpoint it connects to.
#[derive(Debug, Clone)]
pub struct Client {
    pub socket: String,
}

/// Failure of a daemon client call.
#[derive(Debug)]
pub enum ClientError {
    /// The daemon answered with a status code other than 200.
    Http(u16),
    /// The response body was not a valid status document.
    Protocol,
}

impl Client {
    pub fn new(socket: String) -> (c: Client)
        ensures
            c.socket == socket,
    {
        Client { socket }
    }

    /// The endpoint this client connects to.
    pub fn socket_path(&self) -> (r: &String)
        ensures
            r == self.socket,
    {
        &self.socket
    }

    /// The request target of the status call: the virtual authority
    /// followed by `/status`.
    pub fn status_target(&self) -> (r: String)
        ensures
            r@ == spec_virtual_base() + spec_status_path(),
    {
        rewrite_target("/status")
    }

    /// How the response to `GET /status` is read: a 200 response with a
    /// well-formed status document yields that status; a non-200 response
    /// fails with its code; a 200 response with a malformed body fails as
    /// a protocol error. No retry happens here.
    pub fn interpret_status_response(&self, code: u16, body: &str) -> (r: Result<
        DaemonStatus,
        ClientError,
    >)
        ensures
            code != 200 ==> r == Result::<DaemonStatus, ClientError>::Err(ClientError::Http(code)),
            code == 200 ==> match json::spec_parse_daemon_status(body@) {
                Some(st) => r == Result::<DaemonStatus, ClientError>::Ok(st),
                None => r == Result::<DaemonStatus, ClientError>::Err(ClientError::Protocol),
            },
    {
        if code != 200 {
            return Err(ClientError::Http(code));
        }
        match json::parse_daemon_status(body) {
            Some(st) => Ok(st),
            None => Err(ClientError::Protocol),
        }
    }
}

/// Rewrites a request target to the fixed virtual authority, keeping the
/// path and query exactly as they came in. This is the whole rewriting the
/// proxy performs on the request line.
pub fn rewrite_target(path_and_query: &str) -> (r: String)
    ensures
        r@ == spec_virtual_base() + path_and_query@,
{
    String::from_str("http://localclient.devpod").concat(path_and_query)
}

/// The `Host` header value set on every proxied or direct daemon request.
pub fn host_header_value() -> (r: String)
    ensures
        r@ == spec_host_header(),
{
    String::from_str("sh.loft.devpod.desktop")
}

/// A rewritten target starts with the virtual base and ends with the
/// original path and query, unchanged: rewriting touches nothing behind
/// the authority.
pub proof fn lemma_rewrite_preserves_path_and_query(pq: Seq<char>)
    ensures
        (spec_virtual_base() + pq).subrange(
            spec_virtual_base().len() as int,
            (spec_virtual_base() + pq).len() as int,
        ) == pq,
        (spec_virtual_base() + pq).subrange(0, spec_virtual_base().len() as int)
            == spec_virtual_base(),
{
    assert((spec_virtual_base() + pq).subrange(
        spec_virtual_base().len() as int,
        (spec_virtual_base() + pq).len() as int,
    ) =~= pq);
    assert((spec_virtual_base() + pq).subrange(0, spec_virtual_base().len() as int)
        =~= spec_virtual_base());
}

} // verus!
