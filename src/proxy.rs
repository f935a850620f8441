//! The decisions of the proxy for one request: where it goes, what comes
//! back to the caller, and how each failure is answered.

use vstd::prelude::*;
use vstd::utf8::encode_utf8;

use crate::body::{bounded_body, BoundedBody};
use crate::cluster::{no_nodes, nodes_of, select, MembershipSnapshot, Node};
use crate::error::{error_text, DispatchError};
use crate::headers::{forwardable_headers, forwarded_headers, Header};
use crate::route::{classify, role_of_path, Role};

verus! {

/// The status of every failure answer: the service is unavailable.
pub const SERVICE_UNAVAILABLE: u16 = 503;

/// Where one request is forwarded.
#[derive(Clone, Debug, PartialEq, Eq)]
pub struct Outbound {
    /// The role that serves the request.
    pub role: Role,
    /// The node chosen among those of `role`.
    pub node: Node,
    /// The node's address followed by the original path and query.
    pub url: String,
}

/// What the backend answered before its body: status and headers.
#[derive(Clone, Debug, PartialEq, Eq)]
pub struct UpstreamHead {
    pub status: u16,
    pub headers: Vec<Header>,
}

/// The answer handed back to the caller.
#[derive(Clone, Debug, PartialEq, Eq)]
pub struct ProxyResponse {
    pub status: u16,
    pub headers: Vec<Header>,
    pub body: Vec<u8>,
}

/// A backend answer whose body is still arriving.
pub struct PendingResponse {
    pub status: u16,
    pub headers: Vec<Header>,
    pub body: BoundedBody,
}

/// The error with which planning a request for `path` fails on `snapshot`, if any.
pub open spec fn plan_error(snapshot: MembershipSnapshot, path: Seq<char>) -> Option<DispatchError> {
    if no_nodes(nodes_of(snapshot, role_of_path(path))) {
        Some(DispatchError::NoNodesAvailable)
    } else {
        None
    }
}

/// The body of the answer to a failure.
pub open spec fn error_body(e: DispatchError) -> Seq<u8> {
    encode_utf8(error_text(e))
}

/// The bytes of `s` in UTF-8.
fn utf8_bytes(s: &str) -> (r: Vec<u8>)
    ensures
        r@ == encode_utf8(s@),
{
    let b = s.as_bytes();
    let mut out: Vec<u8> = Vec::new();
    let mut i: usize = 0;
    while i < b.len()
        invariant
            b@ == encode_utf8(s@),
            i <= b@.len(),
            out@ == b@.take(i as int),
        decreases b@.len() - i,
    {
        out.push(b[i]);
        assert(b@.take(i + 1) == b@.take(i as int).push(b@[i as int]));
        i = i + 1;
    }
    assert(b@.take(i as int) == b@);
    out
}

/// The address at which a request for `path_and_query` reaches `node`: the
/// node's address with the path and query appended verbatim.
pub fn outbound_url(node: &Node, path_and_query: &str) -> (r: String)
    ensures
        r@ == node.http_addr@ + path_and_query@,
{
    let mut url = node.http_addr.clone();
    url.append(path_and_query);
    url
}

/// Where a request for `path_and_query` goes once `node` of `role` is chosen.
pub fn outbound_for(node: Node, role: Role, path_and_query: &str) -> (r: Outbound)
    ensures
        r.role == role,
        r.node == node,
        r.url@ == node.http_addr@ + path_and_query@,
{
    let url = outbound_url(&node, path_and_query);
    Outbound { role, node, url }
}

/// Where a request for `path_and_query` goes: the role is read from the
/// path, and a node of that role is chosen at random from `snapshot`.
/// Fails with `NoNodesAvailable` exactly where the snapshot lists no node
/// of that role.
pub fn plan(snapshot: MembershipSnapshot, path_and_query: &str) -> (r: Result<Outbound, DispatchError>)
    ensures
        r is Err <==> plan_error(snapshot, path_and_query@) is Some,
        r is Err ==> r->Err_0 == plan_error(snapshot, path_and_query@)->0,
        r is Ok ==> {
            let o = r->Ok_0;
            &&& o.role == role_of_path(path_and_query@)
            &&& nodes_of(snapshot, o.role)->0@.contains(o.node)
            &&& o.url@ == o.node.http_addr@ + path_and_query@
        },
{
    let role = classify(path_and_query);
    match select(snapshot, role) {
        Ok(node) => Ok(outbound_for(node, role, path_and_query)),
        Err(e) => Err(e),
    }
}

/// The first step once the backend was tried: a transport failure becomes
/// `UpstreamUnreachable` with its description; an answer keeps its status
/// and the headers that are forwarded, and waits for a body of at most
/// `limit` bytes.
pub fn begin_response(upstream: Result<UpstreamHead, String>, limit: usize) -> (r: Result<
    PendingResponse,
    DispatchError,
>)
    ensures
        match upstream {
            Err(reason) => r == Err::<PendingResponse, DispatchError>(
                DispatchError::UpstreamUnreachable { reason },
            ),
            Ok(head) => r is Ok && {
                let p = r->Ok_0;
                &&& p.status == head.status
                &&& p.headers@ == forwarded_headers(head.headers@)
                &&& p.body.wf()
                &&& p.body.limit() == limit
                &&& p.body.received() == Seq::<Seq<u8>>::empty()
            },
        },
{
    match upstream {
        Err(reason) => Err(DispatchError::UpstreamUnreachable { reason }),
        Ok(head) => Ok(
            PendingResponse {
                status: head.status,
                headers: forwardable_headers(head.headers),
                body: BoundedBody::new(limit),
            },
        ),
    }
}

impl PendingResponse {
    /// Takes the next chunk of the backend's body; see `BoundedBody::push_chunk`.
    pub fn push_chunk(&mut self, chunk: &[u8]) -> (r: Result<(), DispatchError>)
        requires
            old(self).body.wf(),
        ensures
            final(self).status == old(self).status,
            final(self).headers == old(self).headers,
            final(self).body.wf(),
            final(self).body.limit() == old(self).body.limit(),
            final(self).body.received() == old(self).body.received().push(chunk@),
            r is Ok <==> bounded_body(final(self).body.received(), final(self).body.limit()) is Some,
            r is Err ==> r == Err::<(), DispatchError>(
                DispatchError::PayloadTooLarge { limit: old(self).body.limit() as usize },
            ),
    {
        self.body.push_chunk(chunk)
    }

    /// The complete answer, or `PayloadTooLarge` where the body passed the limit.
    pub fn finish(self) -> (r: Result<ProxyResponse, DispatchError>)
        requires
            self.body.wf(),
        ensures
            match bounded_body(self.body.received(), self.body.limit()) {
                Some(b) => r is Ok && {
                    let p = r->Ok_0;
                    &&& p.status == self.status
                    &&& p.headers == self.headers
                    &&& p.body@ == b
                },
                None => r == Err::<ProxyResponse, DispatchError>(
                    DispatchError::PayloadTooLarge { limit: self.body.limit() as usize },
                ),
            },
    {
        let status = self.status;
        let headers = self.headers;
        match self.body.finish() {
            Ok(body) => Ok(ProxyResponse { status, headers, body }),
            Err(e) => Err(e),
        }
    }
}

/// The answer to a failure: unavailable, no headers, the error's text as body.
pub fn error_response(e: &DispatchError) -> (r: ProxyResponse)
    ensures
        r.status == SERVICE_UNAVAILABLE,
        r.headers@.len() == 0,
        r.body@ == error_body(*e),
{
    let text = e.message();
    let body = utf8_bytes(text.as_str());
    ProxyResponse { status: SERVICE_UNAVAILABLE, headers: Vec::new(), body }
}

/// What the caller receives for the outcome of a request.
pub fn respond(outcome: Result<ProxyResponse, DispatchError>) -> (r: ProxyResponse)
    ensures
        match outcome {
            Ok(p) => r == p,
            Err(e) => {
                &&& r.status == SERVICE_UNAVAILABLE
                &&& r.headers@.len() == 0
                &&& r.body@ == error_body(e)
            },
        },
{
    match outcome {
        Ok(p) => p,
        Err(e) => error_response(&e),
    }
}

/// Where the snapshot lists no node, or no information, for the role of a
/// path, planning fails with `NoNodesAvailable` and the caller receives a
/// service-unavailable answer saying so.
pub proof fn lemma_no_nodes_is_unavailable(snapshot: MembershipSnapshot, path: Seq<char>)
    requires
        no_nodes(nodes_of(snapshot, role_of_path(path))),
    ensures
        plan_error(snapshot, path) == Some(DispatchError::NoNodesAvailable),
        error_body(DispatchError::NoNodesAvailable) == encode_utf8("No online nodes"@),
{
}

/// A body longer than the limit yields `PayloadTooLarge`, and the caller
/// receives the error's text, never a part of the body.
pub proof fn lemma_oversized_body_is_rejected(chunks: Seq<Seq<u8>>, limit: nat)
    requires
        chunks.flatten().len() > limit,
    ensures
        bounded_body(chunks, limit) is None,
        error_body(DispatchError::PayloadTooLarge { limit: limit as usize }) == encode_utf8(
            "Response payload is larger than the configured limit"@,
        ),
{
}

} // verus!
