//! The local endpoint that installs the Cloudflare Tunnel connector as a
//! service: the command line it runs and how each outcome is answered.
use vstd::prelude::*;
use vstd::utf8::*;

verus! {

/// File name of the connector, looked up next to the bridge's executable.
pub const CLOUDFLARED_FILE_NAME: &'static str = "cloudflared.exe";

/// Start of the answer when the connector is not next to the executable;
/// the path that was looked at follows it.
pub const MISSING_CONNECTOR_PREFIX: &'static str = "cloudflared.exe không nằm cạnh thực thi: ";

/// HTTP status of a request that cannot be served as given.
pub const STATUS_BAD_REQUEST: u16 = 400;

/// HTTP status of a failure on the bridge's side.
pub const STATUS_INTERNAL_ERROR: u16 = 500;

/// The text that `String::from_utf8_lossy` makes of `bytes`.
pub uninterp spec fn lossy_utf8(bytes: Seq<u8>) -> Seq<char>;

/// Calls `String::from_utf8_lossy` and takes ownership of the text.
/// Trusted: the result is `lossy_utf8(bytes)`, which, as the function's
/// documentation says, is the decoded text when `bytes` is valid UTF-8. What
/// it is on other input (replacement characters) is left unsaid.
#[verifier::external_body]
fn decode_lossy(bytes: &[u8]) -> (text: String)
    ensures
        text@ == lossy_utf8(bytes@),
        valid_utf8(bytes@) ==> text@ == decode_utf8(bytes@),
{
    String::from_utf8_lossy(bytes).into_owned()
}

/// The arguments given to the connector: `service install <token>`.
pub fn cloudflared_args(token: &str) -> (args: Vec<String>)
    ensures
        args@.len() == 3,
        args@[0]@ == "service"@,
        args@[1]@ == "install"@,
        args@[2]@ == token@,
{
    let mut args: Vec<String> = Vec::new();
    args.push(String::from_str("service"));
    args.push(String::from_str("install"));
    args.push(String::from_str(token));
    args
}

/// A failed request: its HTTP status and the text of the answer.
#[derive(Debug)]
pub struct HttpFailure {
    pub status: u16,
    pub message: String,
}

/// What the endpoint found out, in the order it asks.
#[derive(Debug)]
pub enum InstallProbe {
    /// The path of the running executable is unknown; the error's text.
    ExeUnknown(String),
    /// No connector at the displayed path.
    Missing(String),
    /// The connector could not be run; the error's text.
    SpawnFailed(String),
    /// The connector ran: whether it exited successfully, and its output.
    Finished { success: bool, stdout: Vec<u8>, stderr: Vec<u8> },
}

/// The answer to a connector run whose selected output stream decoded to
/// `text`: the text itself on success, an internal error carrying it otherwise.
pub fn run_outcome(success: bool, text: String) -> (r: Result<String, HttpFailure>)
    ensures
        success ==> (r matches Ok(out) && out@ == text@),
        !success ==> (r matches Err(f) && f.status == STATUS_INTERNAL_ERROR && f.message@
            == text@),
{
    if success {
        Ok(text)
    } else {
        Err(HttpFailure { status: STATUS_INTERNAL_ERROR, message: text })
    }
}

/// The answer of the endpoint: the connector's standard output when it ran
/// successfully; a bad request when it is missing, with the path in the
/// text; an internal error with the error's text, or with the connector's
/// standard error, in every other case.
pub fn install_response(probe: InstallProbe) -> (r: Result<String, HttpFailure>)
    ensures
        match probe {
            InstallProbe::ExeUnknown(e) => r matches Err(f) && f.status == STATUS_INTERNAL_ERROR
                && f.message@ == e@,
            InstallProbe::Missing(path) => r matches Err(f) && f.status == STATUS_BAD_REQUEST
                && f.message@ == MISSING_CONNECTOR_PREFIX@ + path@,
            InstallProbe::SpawnFailed(e) => r matches Err(f) && f.status == STATUS_INTERNAL_ERROR
                && f.message@ == e@,
            InstallProbe::Finished { success, stdout, stderr } => if success {
                r matches Ok(out) && out@ == lossy_utf8(stdout@)
            } else {
                r matches Err(f) && f.status == STATUS_INTERNAL_ERROR && f.message@ == lossy_utf8(
                    stderr@,
                )
            },
        },
{
    match probe {
        InstallProbe::ExeUnknown(e) => Err(HttpFailure { status: STATUS_INTERNAL_ERROR, message: e }),
        InstallProbe::Missing(path) => {
            let message = String::from_str(MISSING_CONNECTOR_PREFIX).concat(path.as_str());
            Err(HttpFailure { status: STATUS_BAD_REQUEST, message })
        },
        InstallProbe::SpawnFailed(e) => Err(HttpFailure { status: STATUS_INTERNAL_ERROR, message: e }),
        InstallProbe::Finished { success, stdout, stderr } => {
            if success {
                run_outcome(true, decode_lossy(stdout.as_slice()))
            } else {
                run_outcome(false, decode_lossy(stderr.as_slice()))
            }
        },
    }
}

} // verus!
