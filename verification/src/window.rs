//! The life of the main window and of the process around it.
//!
//! A window is created at most once, hidden instead of closed, and destroyed
//! only when the user quits. The functions here decide each transition; the
//! caller performs the command they return.

use crate::config::flag_or_off;
use crate::event::TrayAction;
use vstd::prelude::*;

verus! {

/// Seconds to wait after start before the main window is created.
pub const SETTLE_DELAY_SECS: u64 = 2;

/// Where the main window stands.
#[derive(Clone, Copy, Debug, PartialEq, Eq, Structural)]
pub enum WindowState {
    NotCreated,
    Created,
    Hidden,
    Visible,
    Destroyed,
}

/// What can happen to the main window.
#[derive(Clone, Copy, Debug, PartialEq, Eq, Structural)]
pub enum WindowEvent {
    /// The user asked to see the window.
    ShowRequested,
    /// The window's close button was used.
    CloseRequested,
    /// The user chose to quit the application.
    QuitRequested,
    Moved,
    Resized,
    /// The windowing system reports the window gone.
    Destroyed,
}

/// What the caller does to the window after an event.
#[derive(Clone, Copy, Debug, PartialEq, Eq, Structural)]
pub enum WindowCommand {
    Nothing,
    Create,
    Show,
    /// Refuse the close and hide the window instead.
    HideInsteadOfClose,
    Destroy,
}

/// The outcome of one event.
#[derive(Clone, Copy, Debug, PartialEq, Eq, Structural)]
pub struct Transition {
    pub next: WindowState,
    pub command: WindowCommand,
    /// Whether the window's geometry is saved, on a best-effort basis.
    pub persist_geometry: bool,
    /// Whether the process ends.
    pub exit_process: bool,
}

impl WindowState {
    /// Whether there is a window to act on.
    pub open spec fn is_open(self) -> bool {
        self == WindowState::Created || self == WindowState::Hidden || self
            == WindowState::Visible
    }

    /// Whether there is a window to act on.
    pub fn has_window(self) -> (yes: bool)
        ensures
            yes == self.is_open(),
    {
        match self {
            WindowState::Created | WindowState::Hidden | WindowState::Visible => true,
            _ => false,
        }
    }

    /// The moves that the life cycle allows: a window is created once, goes
    /// back and forth between hidden and visible, and may be destroyed from
    /// any state; staying put is always allowed.
    pub open spec fn may_become(self, next: WindowState) -> bool {
        ||| next == self
        ||| next == WindowState::Destroyed
        ||| self == WindowState::NotCreated && next == WindowState::Created
        ||| self.is_open() && (next == WindowState::Hidden || next == WindowState::Visible)
    }
}

/// The transition for `event` in `state`.
///
/// A request to show creates the window where there is none yet and shows it
/// otherwise. A close request hides an existing window and keeps the process
/// alive. Quitting destroys the window and ends the process. Moves, resizes,
/// close requests and the window's destruction save the geometry. Once
/// destroyed, a window stays destroyed.
pub open spec fn transition(state: WindowState, event: WindowEvent) -> Transition {
    let persist = event == WindowEvent::Moved || event == WindowEvent::Resized || event
        == WindowEvent::Destroyed || event == WindowEvent::CloseRequested;
    match event {
        WindowEvent::QuitRequested => Transition {
            next: WindowState::Destroyed,
            command: if state.is_open() {
                WindowCommand::Destroy
            } else {
                WindowCommand::Nothing
            },
            persist_geometry: false,
            exit_process: true,
        },
        WindowEvent::ShowRequested => Transition {
            next: if state == WindowState::NotCreated {
                WindowState::Created
            } else if state.is_open() {
                WindowState::Visible
            } else {
                state
            },
            command: if state == WindowState::NotCreated {
                WindowCommand::Create
            } else if state.is_open() {
                WindowCommand::Show
            } else {
                WindowCommand::Nothing
            },
            persist_geometry: false,
            exit_process: false,
        },
        WindowEvent::CloseRequested => Transition {
            next: if state.is_open() {
                WindowState::Hidden
            } else {
                state
            },
            command: if state.is_open() {
                WindowCommand::HideInsteadOfClose
            } else {
                WindowCommand::Nothing
            },
            persist_geometry: persist,
            exit_process: false,
        },
        WindowEvent::Moved | WindowEvent::Resized => Transition {
            next: state,
            command: WindowCommand::Nothing,
            persist_geometry: persist,
            exit_process: false,
        },
        WindowEvent::Destroyed => Transition {
            next: if state.is_open() {
                WindowState::Destroyed
            } else {
                state
            },
            command: WindowCommand::Nothing,
            persist_geometry: persist,
            exit_process: false,
        },
    }
}

/// Decides what happens to the main window on `event`.
pub fn on_window_event(state: WindowState, event: WindowEvent) -> (outcome: Transition)
    ensures
        outcome == transition(state, event),
{
    let present = state.has_window();
    match event {
        WindowEvent::QuitRequested => Transition {
            next: WindowState::Destroyed,
            command: if present {
                WindowCommand::Destroy
            } else {
                WindowCommand::Nothing
            },
            persist_geometry: false,
            exit_process: true,
        },
        WindowEvent::ShowRequested => {
            match state {
                WindowState::NotCreated => Transition {
                    next: WindowState::Created,
                    command: WindowCommand::Create,
                    persist_geometry: false,
                    exit_process: false,
                },
                WindowState::Destroyed => Transition {
                    next: state,
                    command: WindowCommand::Nothing,
                    persist_geometry: false,
                    exit_process: false,
                },
                _ => Transition {
                    next: WindowState::Visible,
                    command: WindowCommand::Show,
                    persist_geometry: false,
                    exit_process: false,
                },
            }
        },
        WindowEvent::CloseRequested => {
            if present {
                Transition {
                    next: WindowState::Hidden,
                    command: WindowCommand::HideInsteadOfClose,
                    persist_geometry: true,
                    exit_process: false,
                }
            } else {
                Transition {
                    next: state,
                    command: WindowCommand::Nothing,
                    persist_geometry: true,
                    exit_process: false,
                }
            }
        },
        WindowEvent::Moved | WindowEvent::Resized => Transition {
            next: state,
            command: WindowCommand::Nothing,
            persist_geometry: true,
            exit_process: false,
        },
        WindowEvent::Destroyed => Transition {
            next: if present {
                WindowState::Destroyed
            } else {
                state
            },
            command: WindowCommand::Nothing,
            persist_geometry: true,
            exit_process: false,
        },
    }
}

/// The window event that a tray action stands for: showing the main window
/// and quitting act on the window, every other action leaves it alone.
pub open spec fn window_event_of(action: TrayAction) -> Option<WindowEvent> {
    match action {
        TrayAction::ShowMainWindow => Some(WindowEvent::ShowRequested),
        TrayAction::Quit => Some(WindowEvent::QuitRequested),
        _ => None,
    }
}

/// The window event that a tray action stands for, if any.
pub fn window_event_for(action: TrayAction) -> (event: Option<WindowEvent>)
    ensures
        event == window_event_of(action),
{
    match action {
        TrayAction::ShowMainWindow => Some(WindowEvent::ShowRequested),
        TrayAction::Quit => Some(WindowEvent::QuitRequested),
        _ => None,
    }
}

/// The quit action destroys the window and ends the process from any state.
pub proof fn lemma_quit_action_destroys(state: WindowState)
    ensures
        window_event_of(TrayAction::Quit) == Some(WindowEvent::QuitRequested),
        transition(state, WindowEvent::QuitRequested).next == WindowState::Destroyed,
        transition(state, WindowEvent::QuitRequested).exit_process,
{
}

/// A close request on an existing window hides it, saves its geometry and
/// keeps the process alive.
pub proof fn lemma_close_hides(state: WindowState)
    requires
        state.is_open(),
    ensures
        transition(state, WindowEvent::CloseRequested) == (Transition {
            next: WindowState::Hidden,
            command: WindowCommand::HideInsteadOfClose,
            persist_geometry: true,
            exit_process: false,
        }),
{
}

/// Every transition is a move that the life cycle allows, and a destroyed
/// window stays destroyed.
pub proof fn lemma_transitions_follow_life_cycle(state: WindowState, event: WindowEvent)
    ensures
        state.may_become(transition(state, event).next),
        state == WindowState::Destroyed ==> transition(state, event).next
            == WindowState::Destroyed,
{
}

/// Only quitting ends the process or destroys the window on the
/// application's own initiative; a close request does neither.
pub proof fn lemma_only_quit_exits(state: WindowState, event: WindowEvent)
    ensures
        transition(state, event).exit_process <==> event == WindowEvent::QuitRequested,
        transition(state, event).command == WindowCommand::Destroy ==> event
            == WindowEvent::QuitRequested,
        event == WindowEvent::CloseRequested && state.is_open() ==> transition(state, event).next
            == WindowState::Hidden,
{
}

/// What the process does once it knows whether it is the only instance.
#[derive(Clone, Copy, Debug, PartialEq, Eq, Structural)]
pub enum StartupPlan {
    /// Another instance holds the marker: leave at once, with success, and
    /// touch nothing.
    ExitQuietly,
    /// Go on: create the tray, then the windows as the flags say.
    Run {
        /// Whether a splash window is shown before the main window.
        splash: bool,
        /// Whether the main window is created after the settle delay.
        main_window: bool,
    },
}

impl StartupPlan {
    /// Whether the plan creates any tray or window.
    pub open spec fn creates_ui(self) -> bool {
        self is Run
    }
}

/// The splash screen is on unless switched off; a silent start is off unless
/// switched on and suppresses both windows.
pub open spec fn startup(
    marker_acquired: bool,
    enable_splashscreen: Option<bool>,
    silent_start: Option<bool>,
) -> StartupPlan {
    if !marker_acquired {
        StartupPlan::ExitQuietly
    } else {
        let silent = silent_start == Some(true);
        StartupPlan::Run {
            splash: enable_splashscreen != Some(false) && !silent,
            main_window: !silent,
        }
    }
}

/// Plans the start of the process.
pub fn startup_plan(
    marker_acquired: bool,
    enable_splashscreen: Option<bool>,
    silent_start: Option<bool>,
) -> (plan: StartupPlan)
    ensures
        plan == startup(marker_acquired, enable_splashscreen, silent_start),
        !marker_acquired ==> !plan.creates_ui(),
{
    if !marker_acquired {
        return StartupPlan::ExitQuietly;
    }
    let silent = flag_or_off(silent_start);
    let splash_enabled = match enable_splashscreen {
        Some(on) => on,
        None => true,
    };
    StartupPlan::Run { splash: splash_enabled && !silent, main_window: !silent }
}

/// A process that does not get the marker creates no interface, whatever
/// its settings say.
pub proof fn lemma_second_instance_exits(
    enable_splashscreen: Option<bool>,
    silent_start: Option<bool>,
)
    ensures
        startup(false, enable_splashscreen, silent_start) == StartupPlan::ExitQuietly,
        !startup(false, enable_splashscreen, silent_start).creates_ui(),
{
}

} // verus!
