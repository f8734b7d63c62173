use tango_bridge::cloudflared::{
    cloudflared_args, install_response, run_outcome, InstallProbe, CLOUDFLARED_FILE_NAME, STATUS_BAD_REQUEST,
    STATUS_INTERNAL_ERROR,
};

#[test]
fn command_line() {
    assert_eq!(cloudflared_args("tok-123"), vec!["service", "install", "tok-123"]);
    assert_eq!(CLOUDFLARED_FILE_NAME, "cloudflared.exe");
}

#[test]
fn missing_connector_is_bad_request_with_path() {
    let f = install_response(InstallProbe::Missing("C:\\bridge\\cloudflared.exe".to_string())).unwrap_err();
    assert_eq!(f.status, 400);
    assert_eq!(f.status, STATUS_BAD_REQUEST);
    assert_eq!(f.message, "cloudflared.exe không nằm cạnh thực thi: C:\\bridge\\cloudflared.exe");
}

#[test]
fn unknown_executable_and_spawn_failure_are_internal_errors() {
    let f = install_response(InstallProbe::ExeUnknown("no exe".to_string())).unwrap_err();
    assert_eq!((f.status, f.message.as_str()), (500, "no exe"));
    let f = install_response(InstallProbe::SpawnFailed("denied".to_string())).unwrap_err();
    assert_eq!((f.status, f.message.as_str()), (STATUS_INTERNAL_ERROR, "denied"));
}

#[test]
fn success_returns_stdout() {
    let out = install_response(InstallProbe::Finished {
        success: true,
        stdout: b"installed\n".to_vec(),
        stderr: b"ignored".to_vec(),
    })
    .unwrap();
    assert_eq!(out, "installed\n");
}

#[test]
fn failure_returns_stderr_as_internal_error() {
    let f = install_response(InstallProbe::Finished {
        success: false,
        stdout: b"ignored".to_vec(),
        stderr: b"bad token".to_vec(),
    })
    .unwrap_err();
    assert_eq!(f.status, 500);
    assert_eq!(f.message, "bad token");
}

#[test]
fn invalid_utf8_is_replaced() {
    let out = install_response(InstallProbe::Finished { success: true, stdout: vec![0x66, 0xff, 0x67], stderr: vec![] })
        .unwrap();
    assert_eq!(out, "f\u{FFFD}g");
}

#[test]
fn multibyte_output_is_decoded() {
    let out = install_response(InstallProbe::Finished {
        success: true,
        stdout: "thực".as_bytes().to_vec(),
        stderr: vec![],
    })
    .unwrap();
    assert_eq!(out, "thực");
}

#[test]
fn run_outcome_both_ways() {
    assert_eq!(run_outcome(true, "ok".to_string()).unwrap(), "ok");
    let f = run_outcome(false, "no".to_string()).unwrap_err();
    assert_eq!((f.status, f.message.as_str()), (500, "no"));
}
