use tonic_transport::error::Kind;
use tonic_transport::layers::{deadline, poll_timeout, AddOrigin, Request, Uri, UserAgent};

fn uri(scheme: Option<&str>, authority: Option<&str>, path: Option<&str>) -> Uri {
    Uri {
        scheme: scheme.map(|s| s.to_string()),
        authority: authority.map(|s| s.to_string()),
        path_and_query: path.map(|s| s.to_string()),
    }
}

#[test]
fn origin_replaces_scheme_and_authority() {
    let layer = AddOrigin::new(&uri(Some("https"), Some("svc:443"), Some("/ignored")));
    let req = Request {
        uri: uri(Some("http"), Some("other:80"), Some("/pkg.Svc/Method")),
        user_agent: Some("ua".to_string()),
    };
    let out = layer.call(req).ok().unwrap();
    assert_eq!(out.uri.scheme.as_deref(), Some("https"));
    assert_eq!(out.uri.authority.as_deref(), Some("svc:443"));
    assert_eq!(out.uri.path_and_query.as_deref(), Some("/pkg.Svc/Method"));
    assert_eq!(out.user_agent.as_deref(), Some("ua"));
}

#[test]
fn origin_without_authority_is_invalid_uri() {
    let layer = AddOrigin::new(&uri(Some("https"), None, None));
    let req = Request { uri: uri(None, None, Some("/a")), user_agent: None };
    let err = layer.call(req).err().unwrap();
    assert_eq!(err.kind(), Kind::InvalidUri);
}

#[test]
fn user_agent_is_set_when_configured() {
    let layer = UserAgent::new(Some("my-client/1.0")).ok().unwrap();
    let req = Request { uri: uri(None, None, Some("/a")), user_agent: Some("old".to_string()) };
    let out = layer.call(req);
    assert_eq!(out.user_agent.as_deref(), Some("my-client/1.0"));
}

#[test]
fn user_agent_absent_leaves_request() {
    let layer = UserAgent::new(None).ok().unwrap();
    let req = Request { uri: uri(None, None, Some("/a")), user_agent: Some("old".to_string()) };
    assert_eq!(layer.call(req).user_agent.as_deref(), Some("old"));
}

#[test]
fn user_agent_validation() {
    assert!(UserAgent::new(Some("tab\tand space ok")).is_ok());
    assert!(UserAgent::new(Some("caf\u{e9}")).is_ok());
    assert!(UserAgent::new(Some("")).is_ok());
    let err = UserAgent::new(Some("line\nbreak")).err().unwrap();
    assert_eq!(err.kind(), Kind::InvalidUserAgent);
    assert!(UserAgent::new(Some("del\u{7f}")).is_err());
}

#[test]
fn deadline_adds_and_saturates() {
    assert_eq!(deadline(100, Some(50)), Some(150));
    assert_eq!(deadline(100, None), None);
    assert_eq!(deadline(u64::MAX - 1, Some(5)), Some(u64::MAX));
}

#[test]
fn timeout_expires_at_deadline() {
    let r: Option<Result<u32, _>> = poll_timeout(None, 149, Some(150));
    assert!(r.is_none());
    let r: Option<Result<u32, _>> = poll_timeout(None, 150, Some(150));
    let err = r.unwrap().err().unwrap();
    assert_eq!(err.kind(), Kind::Transport);
    assert_eq!(err.source().map(|s| s.as_str()), Some("Timeout expired"));
    let r: Option<Result<u32, _>> = poll_timeout(None, 1_000_000, None);
    assert!(r.is_none());
}

#[test]
fn timeout_forwards_completed_call() {
    let r = poll_timeout(Some(Ok(7u32)), 500, Some(150));
    assert_eq!(r.unwrap().ok(), Some(7));
}
