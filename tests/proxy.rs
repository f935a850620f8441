use gateway_router::body::BoundedBody;
use gateway_router::cluster::{MembershipSnapshot, Node};
use gateway_router::error::DispatchError;
use gateway_router::headers::{forwardable_headers, is_content_encoding_name, Header};
use gateway_router::proxy::{
    begin_response, error_response, outbound_for, outbound_url, plan, respond, ProxyResponse,
    UpstreamHead, SERVICE_UNAVAILABLE,
};
use gateway_router::route::Role;

fn node(addr: &str) -> Node {
    Node { http_addr: addr.to_string() }
}

fn header(name: &str, value: &str) -> Header {
    Header { name: name.to_string(), value: value.as_bytes().to_vec() }
}

fn cluster() -> MembershipSnapshot {
    MembershipSnapshot {
        ingesters: Some(vec![node("http://ing1:5080")]),
        queriers: Some(vec![node("http://q1:5080"), node("http://q2:5080")]),
    }
}

#[test]
fn outbound_url_keeps_path_and_query() {
    let u = outbound_url(&node("http://10.0.0.1:5080"), "/api/org1/_search?q=1");
    assert_eq!(u, "http://10.0.0.1:5080/api/org1/_search?q=1");
    let o = outbound_for(node("http://h"), Role::Ingester, "/config");
    assert_eq!(o.url, "http://h/config");
    assert_eq!(o.role, Role::Ingester);
    assert_eq!(o.node, node("http://h"));
}

#[test]
fn search_goes_to_a_querier_and_mirrors_its_reply() {
    for _ in 0..20 {
        let o = plan(cluster(), "/api/org1/_search?q=1").unwrap();
        assert_eq!(o.role, Role::Querier);
        assert!(o.node == node("http://q1:5080") || o.node == node("http://q2:5080"));
        assert_eq!(o.url, format!("{}/api/org1/_search?q=1", o.node.http_addr));
    }
    let head = UpstreamHead {
        status: 200,
        headers: vec![header("content-type", "application/json")],
    };
    let mut p = begin_response(Ok(head), 1024).ok().unwrap();
    assert!(p.push_chunk(b"{\"hits\":").is_ok());
    assert!(p.push_chunk(b"[]}").is_ok());
    let r = respond(p.finish());
    assert_eq!(r.status, 200);
    assert_eq!(r.headers, vec![header("content-type", "application/json")]);
    assert_eq!(r.body, b"{\"hits\":[]}".to_vec());
}

#[test]
fn bulk_goes_to_the_ingester_and_mirrors_its_reply() {
    let o = plan(cluster(), "/api/org1/logs/_bulk").unwrap();
    assert_eq!(o.role, Role::Ingester);
    assert_eq!(o.url, "http://ing1:5080/api/org1/logs/_bulk");
    let head = UpstreamHead { status: 201, headers: vec![header("x-trace", "abc")] };
    let mut p = begin_response(Ok(head), 64).ok().unwrap();
    assert!(p.push_chunk(b"{\"code\":200}").is_ok());
    let r = respond(p.finish());
    assert_eq!(r.status, 201);
    assert_eq!(r.headers, vec![header("x-trace", "abc")]);
    assert_eq!(r.body, b"{\"code\":200}".to_vec());
}

#[test]
fn no_nodes_answers_unavailable_and_later_requests_still_work() {
    let empty = MembershipSnapshot { ingesters: None, queriers: Some(Vec::new()) };
    let e = plan(empty.clone(), "/api/org1/_search").unwrap_err();
    assert_eq!(e, DispatchError::NoNodesAvailable);
    let r = error_response(&e);
    assert_eq!(r.status, SERVICE_UNAVAILABLE);
    assert_eq!(r.status, 503);
    assert_eq!(r.body, b"No online nodes".to_vec());
    assert!(r.headers.is_empty());
    assert_eq!(plan(empty, "/api/org1/_bulk").unwrap_err(), DispatchError::NoNodesAvailable);
    assert!(plan(cluster(), "/api/org1/_bulk").is_ok());
}

#[test]
fn unreachable_node_answers_unavailable_with_the_reason() {
    let e = begin_response(Err("Connection refused (os error 111)".to_string()), 10)
        .err()
        .unwrap();
    assert_eq!(
        e,
        DispatchError::UpstreamUnreachable { reason: "Connection refused (os error 111)".to_string() }
    );
    let r = respond(Err(e));
    assert_eq!(r.status, 503);
    assert_eq!(r.body, b"Connection refused (os error 111)".to_vec());
}

#[test]
fn content_encoding_is_never_forwarded() {
    let hs = vec![
        header("content-type", "text/plain"),
        header("content-encoding", "gzip"),
        header("Content-Encoding", "br"),
        header("x-a", "1"),
        header("CONTENT-ENCODING", "zstd"),
        header("content-encodings", "x"),
    ];
    let out = forwardable_headers(hs);
    assert_eq!(
        out,
        vec![header("content-type", "text/plain"), header("x-a", "1"), header("content-encodings", "x")]
    );
    let head = UpstreamHead { status: 200, headers: vec![header("content-encoding", "gzip")] };
    let p = begin_response(Ok(head), 10).ok().unwrap();
    let r = p.finish().unwrap();
    assert!(r.headers.is_empty());
}

#[test]
fn content_encoding_name_ignores_ascii_case_only() {
    assert!(is_content_encoding_name("content-encoding"));
    assert!(is_content_encoding_name("Content-Encoding"));
    assert!(!is_content_encoding_name("content_encoding"));
    assert!(!is_content_encoding_name("content-encodin"));
    assert!(!is_content_encoding_name(""));
}

#[test]
fn oversized_body_is_rejected_without_partial_body() {
    let head = UpstreamHead { status: 200, headers: vec![header("x", "y")] };
    let mut p = begin_response(Ok(head), 5).ok().unwrap();
    assert!(p.push_chunk(b"abc").is_ok());
    assert_eq!(p.push_chunk(b"def"), Err(DispatchError::PayloadTooLarge { limit: 5 }));
    assert_eq!(p.push_chunk(b""), Err(DispatchError::PayloadTooLarge { limit: 5 }));
    let outcome = p.finish();
    assert_eq!(outcome.clone().unwrap_err(), DispatchError::PayloadTooLarge { limit: 5 });
    let r = respond(outcome);
    assert_eq!(r.status, 503);
    assert!(r.headers.is_empty());
    assert_eq!(r.body, b"Response payload is larger than the configured limit".to_vec());
}

#[test]
fn body_exactly_at_the_limit_is_kept() {
    let mut b = BoundedBody::new(4);
    assert!(b.push_chunk(b"ab").is_ok());
    assert!(b.push_chunk(b"").is_ok());
    assert!(b.push_chunk(b"cd").is_ok());
    assert_eq!(b.finish(), Ok(b"abcd".to_vec()));
    let mut z = BoundedBody::new(0);
    assert!(z.push_chunk(b"").is_ok());
    assert_eq!(z.push_chunk(b"x"), Err(DispatchError::PayloadTooLarge { limit: 0 }));
}

#[test]
fn large_streamed_body_within_limit_is_mirrored() {
    let limit = 1 << 20;
    let mut p = begin_response(Ok(UpstreamHead { status: 200, headers: Vec::new() }), limit)
        .ok()
        .unwrap();
    let chunk = vec![7u8; 4096];
    for _ in 0..256 {
        assert!(p.push_chunk(&chunk).is_ok());
    }
    let r = p.finish().unwrap();
    assert_eq!(r.body.len(), limit);
    assert!(r.body.iter().all(|&b| b == 7));
}

#[test]
fn error_messages() {
    assert_eq!(DispatchError::NoNodesAvailable.message(), "No online nodes");
    assert_eq!(DispatchError::UpstreamUnreachable { reason: "timeout".to_string() }.message(), "timeout");
    assert_eq!(
        DispatchError::PayloadTooLarge { limit: 1 }.message(),
        "Response payload is larger than the configured limit"
    );
}

#[test]
fn respond_passes_success_through() {
    let p = ProxyResponse { status: 404, headers: vec![header("a", "b")], body: b"nf".to_vec() };
    assert_eq!(respond(Ok(p.clone())), p);
}
