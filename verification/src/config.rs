use vstd::prelude::*;

verus! {

/// Command-line flag that marks a launch made by the login-item registration.
pub const ARG_AUTO_RUN: &'static str = "--auto-run";

/// Page of the web application that the bridge opens in the browser.
pub const APP_URL: &'static str = "https://app.tangoapp.dev/?desktop=true";

/// True when no argument equals `flag`.
pub open spec fn lacks_flag(args: Seq<Seq<char>>, flag: Seq<char>) -> bool {
    forall|i: int| 0 <= i < args.len() ==> #[trigger] args[i] != flag
}

/// Whether the browser is opened once the server is up: only when the
/// process was not started with the auto-run flag.
pub fn should_open_browser(args: &Vec<String>) -> (open_it: bool)
    ensures
        open_it == lacks_flag(args.deep_view(), ARG_AUTO_RUN@),
{
    let flag = String::from_str(ARG_AUTO_RUN);
    let mut i: usize = 0;
    while i < args.len()
        invariant
            i <= args.len(),
            flag@ == ARG_AUTO_RUN@,
            forall|j: int| 0 <= j < i ==> #[trigger] args.deep_view()[j] != ARG_AUTO_RUN@,
        decreases args.len() - i,
    {
        if args[i] == flag {
            assert(args.deep_view()[i as int] == ARG_AUTO_RUN@);
            return false;
        }
        i += 1;
    }
    true
}

/// Address the HTTP server listens on.
pub const SERVER_ADDR: &'static str = "0.0.0.0:15038";

/// Backlog of the listening socket.
pub const LISTEN_BACKLOG: i32 = 1024;

/// Name that keeps a second copy of the bridge from starting.
pub const SINGLE_INSTANCE_NAME: &'static str = "tango-bridge-rs";

/// Name under which the bridge registers itself to run at login.
pub const AUTO_LAUNCH_APP_NAME: &'static str = "Tango";

/// Tooltip of the tray icon.
pub const TRAY_TOOLTIP: &'static str = "Tango (rs)";

/// Label of the menu entry that opens the web application.
pub const MENU_OPEN_LABEL: &'static str = "Open";

/// Label of the menu entry that toggles running at login.
pub const MENU_AUTO_RUN_LABEL: &'static str = "Run at startup";

/// Label of the menu entry that quits.
pub const MENU_QUIT_LABEL: &'static str = "Quit";

/// The origins whose pages may call the bridge's routes.
pub fn allowed_origins() -> (origins: Vec<String>)
    ensures
        origins@.len() == 3,
        origins@[0]@ == "http://localhost:3002"@,
        origins@[1]@ == "http://localhost:8000"@,
        origins@[2]@ == "https://app.hoadev.online"@,
{
    let mut origins: Vec<String> = Vec::new();
    origins.push(String::from_str("http://localhost:3002"));
    origins.push(String::from_str("http://localhost:8000"));
    origins.push(String::from_str("https://app.hoadev.online"));
    origins
}

} // verus!
