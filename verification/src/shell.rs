//! The window-visibility state machine: shell state, events delivered by the
//! host, and the host calls each event produces.

use vstd::prelude::*;

verus! {

/// Half the panel window's width in physical pixels: a tray click at
/// horizontal position `x` places the panel's origin at `x - HALF_PANEL_WIDTH`
/// so that the panel is centred under the click.
pub const HALF_PANEL_WIDTH: i64 = 190;

/// Visibility of one window, as the state machine tracks it.
#[derive(Clone, Copy, Debug, PartialEq, Eq, Structural)]
pub enum Visibility {
    Hidden,
    VisibleUnfocused,
    VisibleFocused,
}

impl Visibility {
    /// Whether the window is on screen in either visible state.
    pub open spec fn is_shown(self) -> bool {
        self != Visibility::Hidden
    }

    /// Executable counterpart of `is_shown`.
    pub fn shown(&self) -> (r: bool)
        ensures
            r == self.is_shown(),
    {
        match self {
            Visibility::Hidden => false,
            Visibility::VisibleUnfocused => true,
            Visibility::VisibleFocused => true,
        }
    }
}

/// The main window's state: visibility plus an orthogonal minimized flag.
#[derive(Clone, Copy, Debug, PartialEq, Eq, Structural)]
pub struct MainWindow {
    pub visibility: Visibility,
    pub minimized: bool,
}

/// The whole shell's state: both windows, the platform capability flag for
/// close interception, and whether the process is still running.
#[derive(Clone, Copy, Debug, PartialEq, Eq, Structural)]
pub struct ShellState {
    pub main: MainWindow,
    pub panel: Visibility,
    /// Resolved once at startup: on the platform family that supports it, a
    /// close request on the main window is intercepted and turned into a hide.
    pub close_interception: bool,
    pub running: bool,
}

/// Identity of a tray menu entry, as dispatch sees it.
#[derive(Clone, Copy, Debug, PartialEq, Eq, Structural)]
pub enum MenuId {
    Show,
    Quit,
    Other,
}

/// An event delivered by the host to one of the installed handlers.
///
/// A tray click carries the host's answer to the panel visibility query:
/// `None` records that the query itself failed.
#[derive(Clone, Copy, Debug)]
pub enum Event {
    TrayClick { left: bool, x: i64, y: i64, panel_visible: Option<bool> },
    Menu { id: MenuId },
    CloseRequested,
    Reopen,
}

/// One call for the driver to make on the host, in the order produced.
#[derive(Clone, Copy, Debug, PartialEq, Eq, Structural)]
pub enum HostCall {
    HidePanel,
    SetPanelPosition { x: i64, y: i64 },
    ShowPanel,
    FocusPanel,
    ShowMain,
    UnminimizeMain,
    FocusMain,
    PreventClose,
    HideMain,
    Exit { code: i32 },
}

/// A failed visibility query is treated as "hidden", so the click after a
/// failed query attempts to show the panel, not hide it.
pub open spec fn spec_effective_visible(query: Option<bool>) -> bool {
    query == Some(true)
}

/// Executable counterpart of `spec_effective_visible`.
pub fn effective_visible(query: Option<bool>) -> (r: bool)
    ensures
        r == spec_effective_visible(query),
{
    match query {
        Some(true) => true,
        _ => false,
    }
}

/// The state after one event.
pub open spec fn spec_step_state(s: ShellState, e: Event) -> ShellState {
    match e {
        Event::TrayClick { left, x, y, panel_visible } => {
            if !left {
                s
            } else if spec_effective_visible(panel_visible) {
                ShellState { panel: Visibility::Hidden, ..s }
            } else {
                ShellState { panel: Visibility::VisibleFocused, ..s }
            }
        },
        Event::Menu { id } => match id {
            MenuId::Show => ShellState {
                main: MainWindow { visibility: Visibility::VisibleFocused, minimized: false },
                ..s
            },
            MenuId::Quit => ShellState { running: false, ..s },
            MenuId::Other => s,
        },
        Event::CloseRequested => {
            if s.close_interception {
                ShellState { main: MainWindow { visibility: Visibility::Hidden, ..s.main }, ..s }
            } else {
                s
            }
        },
        Event::Reopen => ShellState {
            main: MainWindow { visibility: Visibility::VisibleFocused, minimized: false },
            ..s
        },
    }
}

/// The host calls one event produces, in order.
pub open spec fn spec_step_calls(s: ShellState, e: Event) -> Seq<HostCall> {
    match e {
        Event::TrayClick { left, x, y, panel_visible } => {
            if !left {
                seq![]
            } else if spec_effective_visible(panel_visible) {
                seq![HostCall::HidePanel]
            } else {
                seq![
                    HostCall::SetPanelPosition { x: (x - HALF_PANEL_WIDTH) as i64, y: 0 },
                    HostCall::ShowPanel,
                    HostCall::FocusPanel,
                ]
            }
        },
        Event::Menu { id } => match id {
            MenuId::Show => seq![HostCall::ShowMain, HostCall::UnminimizeMain, HostCall::FocusMain],
            MenuId::Quit => seq![HostCall::Exit { code: 0 }],
            MenuId::Other => seq![],
        },
        Event::CloseRequested => {
            if s.close_interception {
                seq![HostCall::PreventClose, HostCall::HideMain]
            } else {
                seq![]
            }
        },
        Event::Reopen => seq![HostCall::ShowMain, HostCall::UnminimizeMain, HostCall::FocusMain],
    }
}

/// The state the shell starts in: the host creates the main window shown and
/// focused and the panel hidden, and the process is running.
pub open spec fn spec_initial(close_interception: bool) -> ShellState {
    ShellState {
        main: MainWindow { visibility: Visibility::VisibleFocused, minimized: false },
        panel: Visibility::Hidden,
        close_interception,
        running: true,
    }
}

impl ShellState {
    /// Build the startup state, with the platform's close-interception
    /// capability resolved once.
    pub fn new(close_interception: bool) -> (s: ShellState)
        ensures
            s == spec_initial(close_interception),
    {
        ShellState {
            main: MainWindow { visibility: Visibility::VisibleFocused, minimized: false },
            panel: Visibility::Hidden,
            close_interception,
            running: true,
        }
    }

    /// Handle one host event: update the tracked state and return the host
    /// calls the driver must make, in order.
    pub fn step(&mut self, event: Event) -> (calls: Vec<HostCall>)
        requires
            event matches Event::TrayClick { x, .. } ==> x >= i64::MIN + HALF_PANEL_WIDTH,
        ensures
            *final(self) == spec_step_state(*old(self), event),
            calls@ == spec_step_calls(*old(self), event),
    {
        let mut calls: Vec<HostCall> = Vec::new();
        match event {
            Event::TrayClick { left, x, y: _, panel_visible } => {
                if left {
                    if effective_visible(panel_visible) {
                        self.panel = Visibility::Hidden;
                        calls.push(HostCall::HidePanel);
                    } else {
                        self.panel = Visibility::VisibleFocused;
                        calls.push(HostCall::SetPanelPosition { x: x - HALF_PANEL_WIDTH, y: 0 });
                        calls.push(HostCall::ShowPanel);
                        calls.push(HostCall::FocusPanel);
                    }
                }
            },
            Event::Menu { id } => {
                match id {
                    MenuId::Show => {
                        self.main = MainWindow {
                            visibility: Visibility::VisibleFocused,
                            minimized: false,
                        };
                        calls.push(HostCall::ShowMain);
                        calls.push(HostCall::UnminimizeMain);
                        calls.push(HostCall::FocusMain);
                    },
                    MenuId::Quit => {
                        self.running = false;
                        calls.push(HostCall::Exit { code: 0 });
                    },
                    MenuId::Other => {},
                }
            },
            Event::CloseRequested => {
                if self.close_interception {
                    self.main = MainWindow { visibility: Visibility::Hidden, ..self.main };
                    calls.push(HostCall::PreventClose);
                    calls.push(HostCall::HideMain);
                }
            },
            Event::Reopen => {
                self.main = MainWindow {
                    visibility: Visibility::VisibleFocused,
                    minimized: false,
                };
                calls.push(HostCall::ShowMain);
                calls.push(HostCall::UnminimizeMain);
                calls.push(HostCall::FocusMain);
            },
        }
        assert(calls@ =~= spec_step_calls(*old(self), event));
        calls
    }
}

} // verus!
