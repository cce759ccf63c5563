//! Laws of the state machine, each proved over the same spec functions that
//! `ShellState::step`'s contract is stated with.

use vstd::prelude::*;
use crate::shell::{
    Event, HostCall, MenuId, ShellState, Visibility, spec_effective_visible, spec_step_calls,
    spec_step_state, HALF_PANEL_WIDTH,
};

verus! {

/// A tray left-click whose visibility query answered accurately, reporting
/// the panel's actual state.
pub open spec fn accurate_left_click(s: ShellState, x: i64, y: i64) -> Event {
    Event::TrayClick { left: true, x, y, panel_visible: Some(s.panel.is_shown()) }
}

/// The state after a sequence of accurately-reported tray left-clicks, one
/// click per coordinate pair.
pub open spec fn run_left_clicks(s: ShellState, clicks: Seq<(i64, i64)>) -> ShellState
    decreases clicks.len(),
{
    if clicks.len() == 0 {
        s
    } else {
        run_left_clicks(
            spec_step_state(s, accurate_left_click(s, clicks[0].0, clicks[0].1)),
            clicks.drop_first(),
        )
    }
}

/// A sequence of tray left-clicks toggles the panel once per click: the panel
/// ends shown exactly when the click count's parity says so, regardless of
/// the click coordinates.
pub proof fn lemma_left_clicks_toggle(s: ShellState, clicks: Seq<(i64, i64)>)
    ensures
        run_left_clicks(s, clicks).panel.is_shown() == (s.panel.is_shown() != (clicks.len() % 2
            == 1)),
    decreases clicks.len(),
{
    if clicks.len() > 0 {
        let s1 = spec_step_state(s, accurate_left_click(s, clicks[0].0, clicks[0].1));
        lemma_left_clicks_toggle(s1, clicks.drop_first());
    }
}

/// Law: starting from a hidden panel, every sequence of tray left-clicks
/// alternates the panel's visibility strictly hidden, shown, hidden, ...,
/// whatever the click coordinates are: after any prefix of the clicks the
/// panel is shown exactly when that prefix's length is odd.
pub proof fn lemma_tray_clicks_alternate(s: ShellState, clicks: Seq<(i64, i64)>)
    requires
        s.panel is Hidden,
    ensures
        forall|i: int|
            0 <= i <= clicks.len() ==> (#[trigger] run_left_clicks(
                s,
                clicks.take(i),
            )).panel.is_shown() == (i % 2 == 1),
{
    assert forall|i: int| 0 <= i <= clicks.len() implies (#[trigger] run_left_clicks(
        s,
        clicks.take(i),
    )).panel.is_shown() == (i % 2 == 1) by {
        lemma_left_clicks_toggle(s, clicks.take(i));
    }
}

/// Law: a tray left-click that finds the panel not visible places the panel's
/// origin at (x - HALF_PANEL_WIDTH, 0): whatever the click's y coordinate,
/// the window's y is pinned to 0.
pub proof fn lemma_click_position(s: ShellState, x: i64, y: i64, query: Option<bool>)
    requires
        x >= i64::MIN + HALF_PANEL_WIDTH,
        !spec_effective_visible(query),
    ensures
        spec_step_calls(s, Event::TrayClick { left: true, x, y, panel_visible: query }) == seq![
            HostCall::SetPanelPosition { x: (x - HALF_PANEL_WIDTH) as i64, y: 0 },
            HostCall::ShowPanel,
            HostCall::FocusPanel,
        ],
        (x - HALF_PANEL_WIDTH) as i64 == x - HALF_PANEL_WIDTH,
{
}

/// Law: selecting "quit" stops the process with exit code 0, from any window
/// state: the one host call made is `Exit { code: 0 }`.
pub proof fn lemma_quit_terminates(s: ShellState)
    ensures
        !spec_step_state(s, Event::Menu { id: MenuId::Quit }).running,
        spec_step_calls(s, Event::Menu { id: MenuId::Quit }) == seq![HostCall::Exit { code: 0 }],
{
}

/// Law: selecting "show" leaves the main window visible and focused and never
/// minimized, from any prior state; nothing else changes.
pub proof fn lemma_show_restores_main(s: ShellState)
    ensures
        spec_step_state(s, Event::Menu { id: MenuId::Show }).main.visibility
            == Visibility::VisibleFocused,
        !spec_step_state(s, Event::Menu { id: MenuId::Show }).main.minimized,
        spec_step_state(s, Event::Menu { id: MenuId::Show }).panel == s.panel,
        spec_step_state(s, Event::Menu { id: MenuId::Show }).running == s.running,
{
}

/// Law: with close interception enabled, a close request on the main window
/// never destroys it: the default close is cancelled, the window ends hidden,
/// and the process keeps running.
pub proof fn lemma_close_intercepted(s: ShellState)
    requires
        s.close_interception,
    ensures
        spec_step_state(s, Event::CloseRequested).main.visibility == Visibility::Hidden,
        spec_step_state(s, Event::CloseRequested).running == s.running,
        spec_step_calls(s, Event::CloseRequested) == seq![
            HostCall::PreventClose,
            HostCall::HideMain,
        ],
{
}

/// Law: a reopen event leaves the main window visible, focused and not
/// minimized, from any prior state, hidden or minimized included.
pub proof fn lemma_reopen_restores_main(s: ShellState)
    ensures
        spec_step_state(s, Event::Reopen).main.visibility == Visibility::VisibleFocused,
        !spec_step_state(s, Event::Reopen).main.minimized,
{
}

} // verus!
