use tango_bridge::proxy::{proxy_target, target_from_resolution, ProxyError, ProxyStage, PROXY_HOST};

#[test]
fn path_is_resolved_against_the_site() {
    let t = proxy_target("/api/version?x=1").unwrap();
    assert_eq!(t.url, "https://tangoapp.dev/api/version?x=1");
    assert_eq!(t.host.as_deref(), Some("tangoapp.dev"));
}

#[test]
fn root_path() {
    let t = proxy_target("/").unwrap();
    assert_eq!(t.url, "https://tangoapp.dev/");
}

#[test]
fn dot_segments_are_removed() {
    let t = proxy_target("/a/../b").unwrap();
    assert_eq!(t.url, "https://tangoapp.dev/b");
}

#[test]
fn absolute_target_keeps_its_own_host() {
    let t = proxy_target("http://example.com:8080/x").unwrap();
    assert_eq!(t.url, "http://example.com:8080/x");
    assert_eq!(t.host.as_deref(), Some("example.com"));
}

#[test]
fn unresolvable_target_is_bad_request() {
    let e = proxy_target("http://[::1").unwrap_err();
    assert_eq!(e, ProxyError::BadRequest);
    assert_eq!(e.status(), 400);
    assert_eq!(e.reason(), "Bad Request");
}

#[test]
fn failure_stages() {
    assert_eq!(ProxyError::at_stage(ProxyStage::Resolve), ProxyError::BadRequest);
    assert_eq!(ProxyError::at_stage(ProxyStage::Build), ProxyError::BadRequest);
    let g = ProxyError::at_stage(ProxyStage::Send);
    assert_eq!(g, ProxyError::BadGateway);
    assert_eq!(g.status(), 502);
    assert_eq!(g.reason(), "Bad Gateway");
}

#[test]
fn resolution_is_passed_through() {
    assert_eq!(target_from_resolution(None).unwrap_err(), ProxyError::BadRequest);
    let t = target_from_resolution(Some(("u".to_string(), None))).unwrap();
    assert_eq!(t.url, "u");
    assert_eq!(t.host, None);
}

#[test]
fn proxy_host_constant() {
    assert_eq!(PROXY_HOST, "https://tangoapp.dev");
}
