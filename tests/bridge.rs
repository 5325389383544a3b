use ic_http_bridge::actor::{resolve_actor, strip_host_suffix, ActorId};
use ic_http_bridge::dispatch::{entry_point, CallKind, Dispatch, Phase, PollPolicy, Step};
use ic_http_bridge::error::BridgeError;
use ic_http_bridge::message::{build_call_request, prepare, CallResult, InboundRequest};
use ic_http_bridge::response::{build_response, check_headers};

const CANISTER: &str = "rrkah-fqaaa-aaaaa-aaaaq-cai";
const ANONYMOUS: &str = "2vxsx-fae";

fn hdr(n: &str, v: &str) -> (Vec<u8>, Vec<u8>) {
    (n.as_bytes().to_vec(), v.as_bytes().to_vec())
}

fn inbound(host: Option<&str>, path_and_query: Option<&str>) -> InboundRequest {
    let h = host.unwrap_or("");
    InboundRequest {
        method: "GET".to_string(),
        uri: format!("https://{}{}", h, path_and_query.unwrap_or("")),
        host: host.map(|s| s.to_string()),
        path_and_query: path_and_query.map(|s| s.to_string()),
        headers: vec![hdr("accept", "*/*"), hdr("x-a", "1"), hdr("accept", "text/html")],
        body: Vec::new(),
    }
}

fn result(status: u16, body: &str, upgrade: bool) -> CallResult {
    CallResult {
        status,
        headers: vec![hdr("content-type", "text/plain")],
        body: body.as_bytes().to_vec(),
        upgrade,
    }
}

#[test]
fn actor_parse_accepts_canonical_text_only() {
    assert_eq!(ActorId::parse(CANISTER).unwrap().as_text(), CANISTER);
    assert_eq!(ActorId::parse("aaaaa-aa").unwrap().as_text(), "aaaaa-aa");
    assert!(ActorId::parse("RRKAH-FQAAA-AAAAA-AAAAQ-CAI").is_none());
    assert!(ActorId::parse("rrkah-fqaaa-aaaaa-aaaaq-caj").is_none());
    assert!(ActorId::parse("not a principal").is_none());
}

#[test]
fn strip_suffix_cases() {
    assert_eq!(strip_host_suffix("abc.ic.nomeata.de"), Some("abc"));
    assert_eq!(strip_host_suffix(".ic.nomeata.de"), Some(""));
    assert_eq!(strip_host_suffix("abc.ic.nomeata.dex"), None);
    assert_eq!(strip_host_suffix("ic.nomeata.de"), None);
    assert_eq!(strip_host_suffix(""), None);
}

#[test]
fn forced_identifier_wins_over_host() {
    let hosts = [Some("example.com"), None, Some("2vxsx-fae.ic.nomeata.de")];
    for h in hosts.iter() {
        let a = resolve_actor(CANISTER, *h, "https://example.com/").unwrap();
        assert_eq!(a.as_text(), CANISTER);
    }
}

#[test]
fn malformed_forced_identifier_is_config_error() {
    match resolve_actor("bogus", Some("2vxsx-fae.ic.nomeata.de"), "u") {
        Err(BridgeError::Config(t)) => assert_eq!(t, "bogus"),
        _ => panic!("expected a config error"),
    }
}

#[test]
fn identifier_from_host() {
    let host = format!("{}.ic.nomeata.de", ANONYMOUS);
    let a = resolve_actor("", Some(&host), "https://x/").unwrap();
    assert_eq!(a.as_text(), ANONYMOUS);
}

#[test]
fn host_without_suffix_or_valid_prefix_is_resolution_error() {
    for host in [Some("2vxsx-fae.example.com"), Some("abc.ic.nomeata.de"), None].iter() {
        match resolve_actor("", *host, "https://the/uri") {
            Err(BridgeError::Resolution(u)) => assert_eq!(u, "https://the/uri"),
            _ => panic!("expected a resolution error"),
        }
    }
}

#[test]
fn call_request_copies_request_verbatim() {
    let req = inbound(Some("h"), Some("/path?q=1"));
    let c = build_call_request(req);
    assert_eq!(c.method, "GET");
    assert_eq!(c.uri, "/path?q=1");
    assert_eq!(
        c.headers,
        vec![hdr("accept", "*/*"), hdr("x-a", "1"), hdr("accept", "text/html")]
    );
    assert!(c.body.is_empty());
}

#[test]
fn call_request_uri_sentinel() {
    assert_eq!(build_call_request(inbound(Some("h"), None)).uri, ",");
    assert_eq!(build_call_request(inbound(Some("h"), Some(""))).uri, ",");
}

#[test]
fn prepare_resolves_and_encodes() {
    let host = format!("{}.ic.nomeata.de", CANISTER);
    let (a, c) = prepare("", inbound(Some(&host), Some("/p"))).unwrap();
    assert_eq!(a.as_text(), CANISTER);
    assert_eq!(c.uri, "/p");
    match prepare("", inbound(Some("elsewhere.org"), Some("/p"))) {
        Err(BridgeError::Resolution(u)) => assert_eq!(u, "https://elsewhere.org/p"),
        _ => panic!("expected a resolution error"),
    }
}

#[test]
fn entry_points() {
    assert_eq!(entry_point(CallKind::Read), "http_query");
    assert_eq!(entry_point(CallKind::Authoritative), "http_update");
}

#[test]
fn poll_policy_timing() {
    let p = PollPolicy::standard();
    assert_eq!(p.throttle_ms, 500);
    assert_eq!(p.deadline_ms, 45_000);
}

fn fresh() -> Dispatch {
    Dispatch::new(ActorId::parse(CANISTER).unwrap(), vec![1, 2, 3])
}

#[test]
fn probe_without_upgrade_makes_one_call() {
    let mut d = fresh();
    assert!(matches!(d.start(), Step::Call(CallKind::Read)));
    match d.on_reply(Ok(result(200, "ok", false))) {
        Step::Finish(r) => assert_eq!(r.body, b"ok".to_vec()),
        _ => panic!("expected the probe's result"),
    }
    assert_eq!(d.calls, vec![CallKind::Read]);
    assert_eq!(d.phase, Phase::Done);
    assert_eq!(d.payload, vec![1, 2, 3]);
}

#[test]
fn upgrade_escalates_to_one_authoritative_call() {
    let mut d = fresh();
    d.start();
    assert!(matches!(
        d.on_reply(Ok(result(200, "", true))),
        Step::Call(CallKind::Authoritative)
    ));
    // the authoritative result's own upgrade flag is ignored
    match d.on_reply(Ok(result(201, "created", true))) {
        Step::Finish(r) => assert_eq!(r.status, 201),
        _ => panic!("expected the authoritative result"),
    }
    assert_eq!(d.calls, vec![CallKind::Read, CallKind::Authoritative]);
    assert_eq!(d.phase, Phase::Done);
}

#[test]
fn authoritative_timeout_fails_with_timeout() {
    let mut d = fresh();
    d.start();
    d.on_reply(Ok(result(200, "", true)));
    assert!(matches!(d.on_reply(Err(BridgeError::Timeout)), Step::Fail(BridgeError::Timeout)));
    assert_eq!(d.calls.len(), 2);
}

#[test]
fn probe_transport_error_ends_dispatch() {
    let mut d = fresh();
    d.start();
    match d.on_reply(Err(BridgeError::Transport("down".to_string()))) {
        Step::Fail(BridgeError::Transport(m)) => assert_eq!(m, "down"),
        _ => panic!("expected a transport error"),
    }
    assert_eq!(d.calls, vec![CallKind::Read]);
    assert_eq!(d.phase, Phase::Done);
}

#[test]
fn response_keeps_header_order_and_duplicates() {
    let r = CallResult {
        status: 200,
        headers: vec![hdr("a", "1"), hdr("b", "2"), hdr("a", "3")],
        body: b"x".to_vec(),
        upgrade: false,
    };
    let resp = build_response(r).unwrap();
    assert_eq!(resp.headers, vec![hdr("a", "1"), hdr("b", "2"), hdr("a", "3")]);
    assert_eq!(resp.status, 200);
    assert_eq!(resp.body, b"x".to_vec());
}

#[test]
fn invalid_header_bytes_are_encoding_errors() {
    let bad_value = CallResult {
        status: 200,
        headers: vec![(b"a".to_vec(), vec![b'x', 0x7f])],
        body: Vec::new(),
        upgrade: false,
    };
    assert!(matches!(build_response(bad_value), Err(BridgeError::Encoding(_))));
    let bad_name = CallResult {
        status: 200,
        headers: vec![hdr("ok", "1"), hdr("bad name", "1")],
        body: Vec::new(),
        upgrade: false,
    };
    assert!(matches!(build_response(bad_name), Err(BridgeError::Encoding(_))));
    assert!(check_headers(&vec![(b"x".to_vec(), vec![b'\t', 0x80, b' '])]));
    assert!(!check_headers(&vec![(Vec::new(), b"v".to_vec())]));
}

fn end_to_end(read: CallResult, update: Option<CallResult>) -> (Vec<CallKind>, u16, Vec<u8>) {
    let host = format!("{}.ic.nomeata.de", CANISTER);
    let (actor, _call) = prepare("", inbound(Some(&host), Some("/path?q=1"))).unwrap();
    let mut d = Dispatch::new(actor, vec![0]);
    let mut recorded = Vec::new();
    let mut step = d.start();
    let mut update = update;
    let mut read = Some(read);
    let final_result = loop {
        step = match step {
            Step::Call(CallKind::Read) => {
                recorded.push(CallKind::Read);
                d.on_reply(Ok(read.take().unwrap()))
            }
            Step::Call(CallKind::Authoritative) => {
                recorded.push(CallKind::Authoritative);
                d.on_reply(Ok(update.take().unwrap()))
            }
            Step::Finish(r) => break r,
            Step::Fail(_) => panic!("unexpected failure"),
        };
    };
    assert_eq!(recorded, d.calls);
    let resp = build_response(final_result).unwrap();
    (recorded, resp.status, resp.body)
}

#[test]
fn end_to_end_read_only() {
    let (calls, status, body) = end_to_end(result(200, "ok", false), None);
    assert_eq!(calls, vec![CallKind::Read]);
    assert_eq!(status, 200);
    assert_eq!(body, b"ok".to_vec());
}

#[test]
fn end_to_end_escalated() {
    let (calls, status, body) =
        end_to_end(result(200, "", true), Some(result(201, "created", false)));
    assert_eq!(calls, vec![CallKind::Read, CallKind::Authoritative]);
    assert_eq!(status, 201);
    assert_eq!(body, b"created".to_vec());
}
