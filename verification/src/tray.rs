//! The tray application's event loop.
//!
//! Each time the windowing event loop wakes the callback, the callback
//! reacts to the loop event, then polls the menu channel, then the tray-icon
//! channel, returning as soon as one of them called for something. This
//! module decides what is done at each of these three points; the caller
//! performs the actions and reports what the next poll found.
use vstd::prelude::*;

verus! {

/// How long the event loop sleeps between wake-ups, in milliseconds.
pub const WAKE_INTERVAL_MS: u64 = 16;

/// An event delivered by the windowing event loop, reduced to what the
/// bridge reads.
#[derive(Clone, Copy, Debug, PartialEq, Eq, Structural)]
pub enum LoopEvent {
    /// The user event sent by the Ctrl-C handler.
    ShutdownSignal,
    /// The application was re-opened (macOS dock).
    Reopen,
    /// The event loop has just started.
    Init,
    /// Anything else.
    Other,
}

/// Which menu entry a menu event came from.
#[derive(Clone, Copy, Debug, PartialEq, Eq, Structural)]
pub enum MenuEntry {
    Open,
    AutoRun,
    Quit,
    Other,
}

/// A tray-icon event, reduced to what the bridge reads.
#[derive(Clone, Copy, Debug, PartialEq, Eq, Structural)]
pub enum TrayClick {
    /// The left button went down on the icon.
    LeftDown,
    /// Any other tray-icon event.
    Other,
}

/// What the caller reports to the machine.
#[derive(Clone, Copy, Debug, PartialEq, Eq, Structural)]
pub enum TrayInput {
    /// The event loop called back with this event.
    Loop(LoopEvent),
    /// The menu channel was polled; `None` when it was empty.
    MenuPolled(Option<MenuEntry>),
    /// The tray-icon channel was polled; `None` when it was empty.
    TrayPolled(Option<TrayClick>),
}

/// What the caller is to do, in the order given.
#[derive(Clone, Copy, Debug, PartialEq, Eq, Structural)]
pub enum TrayAction {
    /// Ask the event loop to wake again after [`WAKE_INTERVAL_MS`].
    ScheduleWake,
    /// Drop the tray icon, if there is one.
    DropTrayIcon,
    /// Cancel the shutdown token shared with the server.
    CancelShutdown,
    /// Wait for the server task to end.
    JoinServer,
    /// Tell the event loop to exit.
    ExitLoop,
    /// Open the web application in the browser.
    OpenBrowser,
    /// Build the tray icon with its menu.
    CreateTrayIcon,
    /// Flip the auto-run registration and the check mark of its menu entry.
    ToggleAutoRun,
    /// Poll the menu channel and report it.
    PollMenu,
    /// Poll the tray-icon channel and report it.
    PollTray,
}

/// Which report the machine is waiting for.
#[derive(Clone, Copy, Debug, PartialEq, Eq, Structural)]
pub enum TickPoint {
    /// Between callbacks: the next report is a loop event.
    Idle,
    /// The menu channel is to be polled.
    AwaitMenu,
    /// The tray-icon channel is to be polled.
    AwaitTray,
}

/// The state the callback keeps between calls.
#[derive(Clone, Copy, Debug, PartialEq, Eq, Structural)]
pub struct TrayApp {
    /// A tray icon is being held.
    pub tray_icon: bool,
    /// The server task has not been joined yet.
    pub server_pending: bool,
    /// Where the current callback stands.
    pub point: TickPoint,
}

/// The actions that shut the application down.
pub open spec fn exit_actions(s: TrayApp) -> Seq<TrayAction> {
    seq![TrayAction::DropTrayIcon, TrayAction::CancelShutdown] + (if s.server_pending {
        seq![TrayAction::JoinServer]
    } else {
        Seq::empty()
    }) + seq![TrayAction::ExitLoop]
}

/// The state after shutting down: no tray icon, the server joined, the
/// callback returned.
pub open spec fn exited() -> TrayApp {
    TrayApp { tray_icon: false, server_pending: false, point: TickPoint::Idle }
}

/// Which reports the machine waits for in a state.
pub open spec fn expects(s: TrayApp, input: TrayInput) -> bool {
    match input {
        TrayInput::Loop(_) => s.point == TickPoint::Idle,
        TrayInput::MenuPolled(_) => s.point == TickPoint::AwaitMenu,
        TrayInput::TrayPolled(_) => s.point == TickPoint::AwaitTray,
    }
}

/// One reaction of the callback.
pub open spec fn react_spec(s: TrayApp, input: TrayInput) -> (TrayApp, Seq<TrayAction>) {
    let idle = TrayApp { point: TickPoint::Idle, ..s };
    match input {
        TrayInput::Loop(ev) => match ev {
            LoopEvent::ShutdownSignal => (exited(), seq![TrayAction::ScheduleWake] + exit_actions(s)),
            LoopEvent::Reopen => (idle, seq![TrayAction::ScheduleWake, TrayAction::OpenBrowser]),
            LoopEvent::Init => (
                TrayApp { tray_icon: true, point: TickPoint::AwaitMenu, ..s },
                seq![TrayAction::ScheduleWake, TrayAction::CreateTrayIcon, TrayAction::PollMenu],
            ),
            LoopEvent::Other => (
                TrayApp { point: TickPoint::AwaitMenu, ..s },
                seq![TrayAction::ScheduleWake, TrayAction::PollMenu],
            ),
        },
        TrayInput::MenuPolled(entry) => match entry {
            Some(MenuEntry::Open) => (idle, seq![TrayAction::OpenBrowser]),
            Some(MenuEntry::AutoRun) => (idle, seq![TrayAction::ToggleAutoRun]),
            Some(MenuEntry::Quit) => (exited(), exit_actions(s)),
            _ => (TrayApp { point: TickPoint::AwaitTray, ..s }, seq![TrayAction::PollTray]),
        },
        TrayInput::TrayPolled(click) => match click {
            Some(TrayClick::LeftDown) => (idle, seq![TrayAction::OpenBrowser]),
            _ => (idle, Seq::empty()),
        },
    }
}

impl TrayApp {
    /// The state before the event loop starts: no tray icon yet, the server
    /// running.
    pub fn new() -> (s: TrayApp)
        ensures
            !s.tray_icon,
            s.server_pending,
            s.point == TickPoint::Idle,
    {
        TrayApp { tray_icon: false, server_pending: true, point: TickPoint::Idle }
    }

    /// Whether `input` is the report the machine is waiting for.
    pub fn expects(&self, input: TrayInput) -> (r: bool)
        ensures
            r == expects(*self, input),
    {
        match input {
            TrayInput::Loop(_) => self.point == TickPoint::Idle,
            TrayInput::MenuPolled(_) => self.point == TickPoint::AwaitMenu,
            TrayInput::TrayPolled(_) => self.point == TickPoint::AwaitTray,
        }
    }

    fn shut_down(&mut self, actions: &mut Vec<TrayAction>)
        ensures
            *final(self) == exited(),
            final(actions)@ == old(actions)@ + exit_actions(*old(self)),
    {
        actions.push(TrayAction::DropTrayIcon);
        actions.push(TrayAction::CancelShutdown);
        if self.server_pending {
            actions.push(TrayAction::JoinServer);
        }
        actions.push(TrayAction::ExitLoop);
        *self = TrayApp { tray_icon: false, server_pending: false, point: TickPoint::Idle };
    }

    /// Reacts to one report: updates the state and returns the actions to
    /// perform, in order. When the last action is a poll, the caller polls
    /// and reports the result; otherwise the callback returns.
    pub fn react(&mut self, input: TrayInput) -> (actions: Vec<TrayAction>)
        requires
            expects(*old(self), input),
        ensures
            (*final(self), actions@) == react_spec(*old(self), input),
    {
        let mut actions: Vec<TrayAction> = Vec::new();
        match input {
            TrayInput::Loop(ev) => {
                actions.push(TrayAction::ScheduleWake);
                match ev {
                    LoopEvent::ShutdownSignal => {
                        self.shut_down(&mut actions);
                    },
                    LoopEvent::Reopen => {
                        actions.push(TrayAction::OpenBrowser);
                        self.point = TickPoint::Idle;
                    },
                    LoopEvent::Init => {
                        actions.push(TrayAction::CreateTrayIcon);
                        actions.push(TrayAction::PollMenu);
                        self.tray_icon = true;
                        self.point = TickPoint::AwaitMenu;
                    },
                    LoopEvent::Other => {
                        actions.push(TrayAction::PollMenu);
                        self.point = TickPoint::AwaitMenu;
                    },
                }
            },
            TrayInput::MenuPolled(entry) => match entry {
                Some(MenuEntry::Open) => {
                    actions.push(TrayAction::OpenBrowser);
                    self.point = TickPoint::Idle;
                },
                Some(MenuEntry::AutoRun) => {
                    actions.push(TrayAction::ToggleAutoRun);
                    self.point = TickPoint::Idle;
                },
                Some(MenuEntry::Quit) => {
                    self.shut_down(&mut actions);
                },
                _ => {
                    actions.push(TrayAction::PollTray);
                    self.point = TickPoint::AwaitTray;
                },
            },
            TrayInput::TrayPolled(click) => {
                if let Some(TrayClick::LeftDown) = click {
                    actions.push(TrayAction::OpenBrowser);
                }
                self.point = TickPoint::Idle;
            },
        }
        proof {
            assert(actions@ =~= react_spec(*old(self), input).1);
        }
        actions
    }
}

/// The state reached and all actions taken, in order, when the machine
/// starting in `s` receives `inputs`.
pub open spec fn run_tray(s: TrayApp, inputs: Seq<TrayInput>) -> (TrayApp, Seq<TrayAction>)
    decreases inputs.len(),
{
    if inputs.len() == 0 {
        (s, Seq::empty())
    } else {
        let before = run_tray(s, inputs.drop_last());
        let turn = react_spec(before.0, inputs.last());
        (turn.0, before.1 + turn.1)
    }
}

/// Every report in `inputs` is the one the machine waits for when it comes.
pub open spec fn expects_all(s: TrayApp, inputs: Seq<TrayInput>) -> bool
    decreases inputs.len(),
{
    if inputs.len() == 0 {
        true
    } else {
        expects_all(s, inputs.drop_last()) && expects(run_tray(s, inputs.drop_last()).0, inputs.last())
    }
}

/// How many times `a` occurs in `acts`.
pub open spec fn occurrences(acts: Seq<TrayAction>, a: TrayAction) -> nat
    decreases acts.len(),
{
    if acts.len() == 0 {
        0
    } else {
        occurrences(acts.drop_last(), a) + if acts.last() == a {
            1nat
        } else {
            0nat
        }
    }
}

proof fn lemma_occurrences_concat(x: Seq<TrayAction>, y: Seq<TrayAction>, a: TrayAction)
    ensures
        occurrences(x + y, a) == occurrences(x, a) + occurrences(y, a),
    decreases y.len(),
{
    if y.len() > 0 {
        lemma_occurrences_concat(x, y.drop_last(), a);
        assert((x + y).drop_last() =~= x + y.drop_last());
    }
}

proof fn lemma_occurrences_of_reaction(s: TrayApp, input: TrayInput)
    ensures
        occurrences(react_spec(s, input).1, TrayAction::JoinServer) + (if react_spec(
            s,
            input,
        ).0.server_pending {
            1nat
        } else {
            0nat
        }) == (if s.server_pending {
            1nat
        } else {
            0nat
        }),
{
    reveal_with_fuel(occurrences, 6);
    let tail = if s.server_pending {
        seq![TrayAction::JoinServer]
    } else {
        Seq::<TrayAction>::empty()
    };
    lemma_occurrences_concat(seq![TrayAction::DropTrayIcon, TrayAction::CancelShutdown], tail, TrayAction::JoinServer);
    lemma_occurrences_concat(
        seq![TrayAction::DropTrayIcon, TrayAction::CancelShutdown] + tail,
        seq![TrayAction::ExitLoop],
        TrayAction::JoinServer,
    );
    lemma_occurrences_concat(seq![TrayAction::ScheduleWake], exit_actions(s), TrayAction::JoinServer);
}

/// The server task is joined at most once over the whole life of the event
/// loop, and never once it has been joined: in any run of expected reports,
/// the joins performed plus the one still owed equal the one owed at the start.
pub proof fn lemma_server_joined_at_most_once(s: TrayApp, inputs: Seq<TrayInput>)
    requires
        expects_all(s, inputs),
    ensures
        occurrences(run_tray(s, inputs).1, TrayAction::JoinServer) + (if run_tray(
            s,
            inputs,
        ).0.server_pending {
            1nat
        } else {
            0nat
        }) == (if s.server_pending {
            1nat
        } else {
            0nat
        }),
        occurrences(run_tray(s, inputs).1, TrayAction::JoinServer) <= 1,
    decreases inputs.len(),
{
    if inputs.len() > 0 {
        let prefix = inputs.drop_last();
        lemma_server_joined_at_most_once(s, prefix);
        let before = run_tray(s, prefix);
        let turn = react_spec(before.0, inputs.last());
        lemma_occurrences_concat(before.1, turn.1, TrayAction::JoinServer);
        lemma_occurrences_of_reaction(before.0, inputs.last());
    }
}

/// Both ways out (the shutdown signal and the Quit entry) drop the tray
/// icon, cancel the server's shutdown token, join the server if it is still
/// running, and end with leaving the event loop, after which nothing is
/// held and nothing is owed.
pub proof fn lemma_every_exit_shuts_down(s: TrayApp, input: TrayInput)
    requires
        expects(s, input),
        input == TrayInput::Loop(LoopEvent::ShutdownSignal) || input == TrayInput::MenuPolled(
            Some(MenuEntry::Quit),
        ),
    ensures
        react_spec(s, input).1.contains(TrayAction::DropTrayIcon),
        react_spec(s, input).1.contains(TrayAction::CancelShutdown),
        react_spec(s, input).1.contains(TrayAction::JoinServer) == s.server_pending,
        react_spec(s, input).1.last() == TrayAction::ExitLoop,
        !react_spec(s, input).0.tray_icon,
        !react_spec(s, input).0.server_pending,
        react_spec(s, input).0.point == TickPoint::Idle,
{
    let acts = react_spec(s, input).1;
    let k: int = if input is Loop { 1 } else { 0 };
    assert(acts[k] == TrayAction::DropTrayIcon);
    assert(acts[k + 1] == TrayAction::CancelShutdown);
    if s.server_pending {
        assert(acts[k + 2] == TrayAction::JoinServer);
    } else {
        assert forall|i: int| 0 <= i < acts.len() implies acts[i] != TrayAction::JoinServer by {}
    }
}

/// A callback always starts by asking to be woken again, and the tray icon
/// is only ever created at the start of the event loop.
pub proof fn lemma_wake_first_and_icon_only_at_init(s: TrayApp, input: TrayInput)
    requires
        expects(s, input),
    ensures
        input is Loop ==> react_spec(s, input).1[0] == TrayAction::ScheduleWake,
        react_spec(s, input).1.contains(TrayAction::CreateTrayIcon) ==> input == TrayInput::Loop(
            LoopEvent::Init,
        ),
{
    let acts = react_spec(s, input).1;
    if acts.contains(TrayAction::CreateTrayIcon) {
        let i = choose|i: int| 0 <= i < acts.len() && acts[i] == TrayAction::CreateTrayIcon;
        assert(acts[i] == TrayAction::CreateTrayIcon);
    }
}

/// A callback polls each channel at most once, the menu before the tray
/// icon: a menu poll is only asked for in answer to a loop event, a tray poll
/// only in answer to a menu poll, and after a tray poll the callback has
/// returned.
pub proof fn lemma_polls_in_order(s: TrayApp, input: TrayInput)
    requires
        expects(s, input),
    ensures
        react_spec(s, input).1.contains(TrayAction::PollMenu) ==> input is Loop,
        react_spec(s, input).1.contains(TrayAction::PollTray) ==> input is MenuPolled,
        s.point == TickPoint::AwaitMenu ==> react_spec(s, input).0.point != TickPoint::AwaitMenu,
        s.point == TickPoint::AwaitTray ==> react_spec(s, input).0.point == TickPoint::Idle,
{
    let acts = react_spec(s, input).1;
    if acts.contains(TrayAction::PollMenu) {
        let i = choose|i: int| 0 <= i < acts.len() && acts[i] == TrayAction::PollMenu;
        assert(acts[i] == TrayAction::PollMenu);
    }
    if acts.contains(TrayAction::PollTray) {
        let i = choose|i: int| 0 <= i < acts.len() && acts[i] == TrayAction::PollTray;
        assert(acts[i] == TrayAction::PollTray);
    }
}

/// Whether the last of `acts` is `a`.
pub open spec fn ends_with(acts: Seq<TrayAction>, a: TrayAction) -> bool {
    acts.len() > 0 && acts.last() == a
}

/// A reaction asks for exactly the report it then waits for: it waits for a
/// menu report exactly when its last action is a menu poll, for a tray
/// report exactly when its last action is a tray poll, and otherwise the
/// callback has returned and the next report is a loop event. Whatever the
/// poll finds, its report is the one expected.
pub proof fn lemma_asks_for_what_it_waits_for(s: TrayApp, i: TrayInput)
    requires
        expects(s, i),
    ensures
        (react_spec(s, i).0.point == TickPoint::AwaitMenu) <==> ends_with(
            react_spec(s, i).1,
            TrayAction::PollMenu,
        ),
        (react_spec(s, i).0.point == TickPoint::AwaitTray) <==> ends_with(
            react_spec(s, i).1,
            TrayAction::PollTray,
        ),
        ends_with(react_spec(s, i).1, TrayAction::PollMenu) ==> forall|m: Option<MenuEntry>|
            #[trigger] expects(react_spec(s, i).0, TrayInput::MenuPolled(m)),
        ends_with(react_spec(s, i).1, TrayAction::PollTray) ==> forall|c: Option<TrayClick>|
            #[trigger] expects(react_spec(s, i).0, TrayInput::TrayPolled(c)),
        !ends_with(react_spec(s, i).1, TrayAction::PollMenu) && !ends_with(
            react_spec(s, i).1,
            TrayAction::PollTray,
        ) ==> (forall|ev: LoopEvent| #[trigger] expects(react_spec(s, i).0, TrayInput::Loop(ev)))
            && (forall|m: Option<MenuEntry>|
            !#[trigger] expects(react_spec(s, i).0, TrayInput::MenuPolled(m))) && (forall|
            c: Option<TrayClick>,
        | !#[trigger] expects(react_spec(s, i).0, TrayInput::TrayPolled(c))),
{
}

/// Between callbacks the machine waits for a loop event, and for nothing
/// else.
pub proof fn lemma_idle_waits_for_loop_events(s: TrayApp)
    requires
        s.point == TickPoint::Idle,
    ensures
        forall|ev: LoopEvent| #[trigger] expects(s, TrayInput::Loop(ev)),
        forall|m: Option<MenuEntry>| !#[trigger] expects(s, TrayInput::MenuPolled(m)),
        forall|c: Option<TrayClick>| !#[trigger] expects(s, TrayInput::TrayPolled(c)),
{
}

/// Every callback that does not return on the shutdown signal or a reopen
/// goes on to poll the menu channel; a menu poll that found nothing the
/// callback acts on goes on to poll the tray-icon channel.
pub proof fn lemma_wakeups_poll_the_menu(s: TrayApp, ev: LoopEvent, m: Option<MenuEntry>)
    requires
        s.point == TickPoint::Idle,
    ensures
        ev != LoopEvent::ShutdownSignal && ev != LoopEvent::Reopen ==> react_spec(
            s,
            TrayInput::Loop(ev),
        ).1.contains(TrayAction::PollMenu) && ends_with(
            react_spec(s, TrayInput::Loop(ev)).1,
            TrayAction::PollMenu,
        ),
        m is None || m == Some(MenuEntry::Other) ==> ends_with(
            react_spec(TrayApp { point: TickPoint::AwaitMenu, ..s }, TrayInput::MenuPolled(m)).1,
            TrayAction::PollTray,
        ),
        react_spec(s, TrayInput::Loop(LoopEvent::Reopen)).1 == seq![
            TrayAction::ScheduleWake,
            TrayAction::OpenBrowser,
        ],
{
    let acts = react_spec(s, TrayInput::Loop(ev)).1;
    if ev != LoopEvent::ShutdownSignal && ev != LoopEvent::Reopen {
        assert(acts[acts.len() - 1] == TrayAction::PollMenu);
    }
}

/// What to do with the auto-run registration when its menu entry is chosen.
#[derive(Clone, Copy, Debug, PartialEq, Eq, Structural)]
pub enum AutoRunChange {
    Enable,
    Disable,
}

/// The entry flips the registration: a registered launch is removed and a
/// missing one is added.
pub fn auto_run_change(currently_enabled: bool) -> (c: AutoRunChange)
    ensures
        c == (if currently_enabled {
            AutoRunChange::Disable
        } else {
            AutoRunChange::Enable
        }),
{
    if currently_enabled {
        AutoRunChange::Disable
    } else {
        AutoRunChange::Enable
    }
}

} // verus!
