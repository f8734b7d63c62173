use tango_bridge::config::{allowed_origins, should_open_browser, ARG_AUTO_RUN, SERVER_ADDR};

fn args(v: &[&str]) -> Vec<String> {
    v.iter().map(|s| s.to_string()).collect()
}

#[test]
fn browser_opens_without_flag() {
    assert!(should_open_browser(&args(&["tango_bridge"])));
    assert!(should_open_browser(&args(&[])));
    assert!(should_open_browser(&args(&["tango_bridge", "--auto-runx"])));
}

#[test]
fn browser_stays_closed_with_flag() {
    assert!(!should_open_browser(&args(&["tango_bridge", ARG_AUTO_RUN])));
    assert!(!should_open_browser(&args(&["--auto-run", "x"])));
}

#[test]
fn origins_and_address() {
    assert_eq!(
        allowed_origins(),
        vec!["http://localhost:3002", "http://localhost:8000", "https://app.hoadev.online"]
    );
    assert_eq!(SERVER_ADDR, "0.0.0.0:15038");
}
