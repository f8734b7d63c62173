use tango_bridge::tray::{
    auto_run_change, AutoRunChange, LoopEvent, MenuEntry, TickPoint, TrayAction, TrayApp, TrayClick, TrayInput,
};


#[test]
fn init_creates_icon_then_polls_menu() {
    let mut s = TrayApp::new();
    assert_eq!(s.react(TrayInput::Loop(LoopEvent::Init)), vec![TrayAction::ScheduleWake, TrayAction::CreateTrayIcon, TrayAction::PollMenu]);
    assert!(s.tray_icon);
    assert_eq!(s.point, TickPoint::AwaitMenu);
    assert_eq!(s.react(TrayInput::MenuPolled(None)), vec![TrayAction::PollTray]);
    assert_eq!(s.point, TickPoint::AwaitTray);
    assert_eq!(s.react(TrayInput::TrayPolled(None)), Vec::<TrayAction>::new());
    assert_eq!(s.point, TickPoint::Idle);
}

#[test]
fn reopen_opens_browser_without_polling() {
    let mut s = TrayApp::new();
    assert_eq!(s.react(TrayInput::Loop(LoopEvent::Reopen)), vec![TrayAction::ScheduleWake, TrayAction::OpenBrowser]);
    assert_eq!(s.point, TickPoint::Idle);
}

#[test]
fn menu_open_and_auto_run() {
    let mut s = TrayApp::new();
    s.react(TrayInput::Loop(LoopEvent::Other));
    assert_eq!(s.react(TrayInput::MenuPolled(Some(MenuEntry::Open))), vec![TrayAction::OpenBrowser]);
    s.react(TrayInput::Loop(LoopEvent::Other));
    assert_eq!(s.react(TrayInput::MenuPolled(Some(MenuEntry::AutoRun))), vec![TrayAction::ToggleAutoRun]);
    assert_eq!(s.point, TickPoint::Idle);
}

#[test]
fn unknown_menu_entry_falls_through_to_tray_poll() {
    let mut s = TrayApp::new();
    s.react(TrayInput::Loop(LoopEvent::Other));
    assert_eq!(s.react(TrayInput::MenuPolled(Some(MenuEntry::Other))), vec![TrayAction::PollTray]);
    assert_eq!(s.react(TrayInput::TrayPolled(Some(TrayClick::LeftDown))), vec![TrayAction::OpenBrowser]);
    s.react(TrayInput::Loop(LoopEvent::Other));
    s.react(TrayInput::MenuPolled(None));
    assert_eq!(s.react(TrayInput::TrayPolled(Some(TrayClick::Other))), Vec::<TrayAction>::new());
}

#[test]
fn quit_shuts_down_and_joins_server_once() {
    let mut s = TrayApp::new();
    s.react(TrayInput::Loop(LoopEvent::Init));
    assert_eq!(
        s.react(TrayInput::MenuPolled(Some(MenuEntry::Quit))),
        vec![TrayAction::DropTrayIcon, TrayAction::CancelShutdown, TrayAction::JoinServer, TrayAction::ExitLoop]
    );
    assert!(!s.tray_icon);
    assert!(!s.server_pending);
    assert_eq!(
        s.react(TrayInput::Loop(LoopEvent::ShutdownSignal)),
        vec![TrayAction::ScheduleWake, TrayAction::DropTrayIcon, TrayAction::CancelShutdown, TrayAction::ExitLoop]
    );
}

#[test]
fn shutdown_signal_exits() {
    let mut s = TrayApp::new();
    assert_eq!(
        s.react(TrayInput::Loop(LoopEvent::ShutdownSignal)),
        vec![TrayAction::ScheduleWake, TrayAction::DropTrayIcon, TrayAction::CancelShutdown, TrayAction::JoinServer, TrayAction::ExitLoop]
    );
    assert_eq!(s.point, TickPoint::Idle);
}

#[test]
fn expects_follows_the_tick() {
    let mut s = TrayApp::new();
    assert!(s.expects(TrayInput::Loop(LoopEvent::Other)));
    assert!(!s.expects(TrayInput::MenuPolled(None)));
    s.react(TrayInput::Loop(LoopEvent::Other));
    assert!(s.expects(TrayInput::MenuPolled(None)));
    assert!(!s.expects(TrayInput::TrayPolled(None)));
    assert!(!s.expects(TrayInput::Loop(LoopEvent::Other)));
}

#[test]
fn auto_run_flips() {
    assert_eq!(auto_run_change(true), AutoRunChange::Disable);
    assert_eq!(auto_run_change(false), AutoRunChange::Enable);
}
