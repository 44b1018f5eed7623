use tonic_transport::connection::{Connection, EndpointConfig};
use tonic_transport::error::{Error, Kind};
use tonic_transport::layers::{Request, Uri};
use tonic_transport::reconnect::Readiness;

fn uri(scheme: Option<&str>, authority: Option<&str>, path: Option<&str>) -> Uri {
    Uri {
        scheme: scheme.map(|s| s.to_string()),
        authority: authority.map(|s| s.to_string()),
        path_and_query: path.map(|s| s.to_string()),
    }
}

fn request(path: &str) -> Request {
    Request { uri: uri(None, None, Some(path)), user_agent: None }
}

fn is_pending(r: &Readiness) -> bool {
    matches!(r, Readiness::Pending)
}

fn is_ready(r: &Readiness) -> bool {
    matches!(r, Readiness::Ready)
}

#[test]
fn endpoint_new_sets_nothing() {
    let ep = EndpointConfig::new(uri(Some("https"), Some("svc:443"), None));
    assert!(ep.origin.is_none() && ep.user_agent.is_none() && ep.timeout.is_none());
    assert!(ep.concurrency_limit.is_none() && ep.rate_limit.is_none());
    assert!(ep.init_stream_window_size.is_none() && ep.http2_adaptive_window.is_none());
}

#[test]
fn lazy_connection_keeps_endpoint_policies() {
    let mut ep = EndpointConfig::new(uri(Some("https"), Some("svc:443"), None));
    ep.user_agent = Some("lazy-agent".to_string());
    ep.timeout = Some(20);
    ep.concurrency_limit = Some(1);
    let mut c = Connection::lazy(&ep, 0).ok().unwrap();
    let s = c.poll_ready(0, Readiness::Pending);
    assert!(s.connect);
    assert!(is_ready(&c.poll_ready(1, Readiness::Ready).readiness));
    let d = c.call(request("/x"), 5).ok().unwrap();
    assert_eq!(d.request.user_agent.as_deref(), Some("lazy-agent"));
    assert_eq!(d.request.uri.authority.as_deref(), Some("svc:443"));
    assert_eq!(d.deadline, Some(25));
    assert!(d.holds_slot);
    assert!(is_pending(&c.poll_ready(6, Readiness::Ready).readiness));
}

#[test]
fn lazy_connection_starts_idle() {
    let ep = EndpointConfig::new(uri(Some("https"), Some("svc:443"), None));
    let mut c = Connection::lazy(&ep, 0).ok().unwrap();
    assert!(!c.is_ready());
    assert_eq!(c.load(), 0);
    let s = c.poll_ready(0, Readiness::Pending);
    assert!(s.connect);
    assert!(is_pending(&s.readiness));
}

#[test]
fn concurrency_limit_one_scenario() {
    let mut ep = EndpointConfig::new(uri(Some("https"), Some("svc:443"), None));
    ep.concurrency_limit = Some(1);
    let mut c = Connection::new(&ep, false, 0).ok().unwrap();
    let s = c.poll_ready(0, Readiness::Pending);
    assert!(s.connect);
    let s = c.poll_ready(0, Readiness::Ready);
    assert!(is_ready(&s.readiness));
    let first = c.call(request("/svc/First"), 0).ok().unwrap();
    assert!(first.holds_slot);
    assert_eq!(first.handle, 0);
    assert_eq!(first.request.uri.authority.as_deref(), Some("svc:443"));
    let s = c.poll_ready(1, Readiness::Ready);
    assert!(is_pending(&s.readiness));
    assert!(!c.is_ready());
    c.complete();
    let s = c.poll_ready(2, Readiness::Ready);
    assert!(is_ready(&s.readiness));
    let second = c.call(request("/svc/Second"), 2).ok().unwrap();
    assert_eq!(second.request.uri.path_and_query.as_deref(), Some("/svc/Second"));
}

#[test]
fn calls_carry_origin_user_agent_and_deadline() {
    let mut ep = EndpointConfig::new(uri(Some("http"), Some("target:50051"), None));
    ep.origin = Some(uri(Some("https"), Some("gateway.example"), None));
    ep.user_agent = Some("agent/2".to_string());
    ep.timeout = Some(30);
    let mut c = Connection::new(&ep, false, 0).ok().unwrap();
    c.poll_ready(0, Readiness::Pending);
    c.poll_ready(0, Readiness::Ready);
    let d = c.call(request("/a/B"), 100).ok().unwrap();
    assert_eq!(d.request.uri.scheme.as_deref(), Some("https"));
    assert_eq!(d.request.uri.authority.as_deref(), Some("gateway.example"));
    assert_eq!(d.request.user_agent.as_deref(), Some("agent/2"));
    assert_eq!(d.deadline, Some(130));
    assert!(!d.holds_slot);
}

#[test]
fn invalid_user_agent_fails_construction() {
    let mut ep = EndpointConfig::new(uri(Some("https"), Some("svc:443"), None));
    ep.user_agent = Some("bad\r\nvalue".to_string());
    let err = Connection::lazy(&ep, 0).err().unwrap();
    assert_eq!(err.kind(), Kind::InvalidUserAgent);
}

#[test]
fn origin_without_scheme_fails_call() {
    let ep = EndpointConfig::new(uri(None, Some("svc:443"), None));
    let mut c = Connection::new(&ep, false, 0).ok().unwrap();
    c.poll_ready(0, Readiness::Pending);
    c.poll_ready(0, Readiness::Ready);
    let err = c.call(request("/a"), 0).err().unwrap();
    assert_eq!(err.kind(), Kind::InvalidUri);
    assert!(c.is_ready());
}

#[test]
fn rate_limit_holds_back_readiness() {
    let mut ep = EndpointConfig::new(uri(Some("https"), Some("svc:443"), None));
    ep.rate_limit = Some((1, 10));
    let mut c = Connection::new(&ep, false, 0).ok().unwrap();
    c.poll_ready(0, Readiness::Pending);
    assert!(is_ready(&c.poll_ready(0, Readiness::Ready).readiness));
    c.call(request("/a"), 0).ok().unwrap();
    assert!(is_pending(&c.poll_ready(5, Readiness::Ready).readiness));
    assert!(is_ready(&c.poll_ready(10, Readiness::Ready).readiness));
}

#[test]
fn dispatcher_failure_reconnects_connection() {
    let ep = EndpointConfig::new(uri(Some("https"), Some("svc:443"), None));
    let mut c = Connection::new(&ep, false, 0).ok().unwrap();
    c.poll_ready(0, Readiness::Pending);
    c.poll_ready(0, Readiness::Ready);
    let s = c.poll_ready(1, Readiness::Failed(Error::new(Kind::Transport)));
    assert!(s.connect);
    assert!(is_pending(&s.readiness));
    assert!(is_ready(&c.poll_ready(2, Readiness::Ready).readiness));
    let d = c.call(request("/a"), 2).ok().unwrap();
    assert_eq!(d.handle, 1);
}
