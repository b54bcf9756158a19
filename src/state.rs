//! Screen navigation of the interactive front end, as a state machine.

use vstd::prelude::*;

verus! {

/// Application screens/states
#[derive(Debug, Clone, Copy, PartialEq, Eq, Structural)]
pub enum AppState {
    /// Main menu screen with Start Test, View Results, Settings, Exit
    Start,
    /// Configuration screen for benchmark parameters
    Config,
    /// Running benchmark with live metrics
    Running,
    /// Results display screen
    Results,
    /// Historical results view
    History,
    /// Settings screen
    Settings,
    /// Exit confirmation or immediate exit
    Exit,
}

/// Navigation actions that can be triggered by keyboard input
#[derive(Debug, Clone, Copy, PartialEq, Eq, Structural)]
pub enum NavigationAction {
    /// Move selection up (arrow up, k)
    Up,
    /// Move selection down (arrow down, j)
    Down,
    /// Move selection left (arrow left, h)
    Left,
    /// Move selection right (arrow right, l)
    Right,
    /// Confirm selection (Enter, Space)
    Select,
    /// Go back/cancel (Esc, Backspace)
    Back,
    /// Next item (Tab)
    Next,
    /// Previous item (Shift+Tab)
    Previous,
    /// Quit application (q, Q, Ctrl+C)
    Quit,
    /// No action
    NoAction,
}

/// Actions that can be triggered from the start screen
#[derive(Debug, Clone, Copy, PartialEq, Eq, Structural)]
pub enum StartScreenAction {
    NoAction,
    StartTest,
    OpenConfig,
    Quit,
}

/// Available actions on the results screen
#[derive(Debug, Clone, Copy, PartialEq, Eq, Structural)]
pub enum ResultAction {
    Save,
    Back,
}

impl ResultAction {
    /// Get all available actions
    pub fn all() -> (r: Vec<Self>)
        ensures
            r@ == seq![ResultAction::Save, ResultAction::Back],
    {
        let mut v: Vec<ResultAction> = Vec::new();
        v.push(ResultAction::Save);
        v.push(ResultAction::Back);
        assert(v@ =~= seq![ResultAction::Save, ResultAction::Back]);
        v
    }

    /// Get display text for the action
    pub fn display_text(&self) -> (r: &'static str)
        ensures
            r@ == (match *self {
                ResultAction::Save => "Save Results"@,
                ResultAction::Back => "Back to Menu"@,
            }),
    {
        match self {
            ResultAction::Save => "Save Results",
            ResultAction::Back => "Back to Menu",
        }
    }
}

/// Application state manager
#[derive(Debug)]
pub struct StateManager {
    current_state: AppState,
    previous_state: Option<AppState>,
    should_quit: bool,
}

/// The screen a selection leads to from each screen; the start screen's
/// selection is handled by its menu, and stays.
pub open spec fn select_target(s: AppState) -> AppState {
    match s {
        AppState::Config => AppState::Running,
        AppState::Running => AppState::Results,
        AppState::Results => AppState::Start,
        AppState::History => AppState::Results,
        AppState::Settings => AppState::Start,
        _ => s,
    }
}

impl StateManager {
    /// The current screen.
    pub closed spec fn current(&self) -> AppState {
        self.current_state
    }

    /// The screen before it, if any.
    pub closed spec fn previous(&self) -> Option<AppState> {
        self.previous_state
    }

    /// Whether the application is to quit.
    pub closed spec fn quitting(&self) -> bool {
        self.should_quit
    }

    /// Create a new state manager starting at the main menu
    pub fn new() -> (r: Self)
        ensures
            r.current() == AppState::Start,
            r.previous() is None,
            !r.quitting(),
    {
        StateManager { current_state: AppState::Start, previous_state: None, should_quit: false }
    }

    /// Get the current application state
    pub fn current_state(&self) -> (r: &AppState)
        ensures
            *r == self.current(),
    {
        &self.current_state
    }

    /// Get the previous state if available
    pub fn previous_state(&self) -> (r: Option<&AppState>)
        ensures
            self.previous() is None ==> r is None,
            self.previous() is Some ==> r is Some && *r->Some_0 == self.previous()->Some_0,
    {
        match &self.previous_state {
            Some(s) => Some(s),
            None => None,
        }
    }

    /// Check if the application should quit
    pub fn should_quit(&self) -> (r: bool)
        ensures
            r == self.quitting(),
    {
        self.should_quit
    }

    /// Set the quit flag
    pub fn quit(&mut self)
        ensures
            final(self).quitting(),
            final(self).current() == old(self).current(),
            final(self).previous() == old(self).previous(),
    {
        self.should_quit = true;
    }

    /// Transition to a new state; the current one becomes the previous. A
    /// transition to the current state changes nothing.
    pub fn transition_to(&mut self, new_state: AppState)
        ensures
            final(self).quitting() == old(self).quitting(),
            new_state != old(self).current() ==> final(self).current() == new_state
                && final(self).previous() == Some(old(self).current()),
            new_state == old(self).current() ==> final(self).current() == old(self).current()
                && final(self).previous() == old(self).previous(),
    {
        if new_state != self.current_state {
            self.previous_state = Some(self.current_state);
            self.current_state = new_state;
        }
    }

    /// Go back to the previous state if available, otherwise go to Start;
    /// the previous state is then forgotten.
    pub fn go_back(&mut self)
        ensures
            final(self).quitting() == old(self).quitting(),
            final(self).previous() is None,
            final(self).current() == match old(self).previous() {
                Some(p) => p,
                None => AppState::Start,
            },
    {
        match self.previous_state {
            Some(prev_state) => {
                self.current_state = prev_state;
            },
            None => {
                self.current_state = AppState::Start;
            },
        }
        self.previous_state = None;
    }

    /// Handle state transitions based on current state and navigation action:
    /// quitting sets the quit flag; going back from the start screen quits,
    /// elsewhere it returns to the previous screen; a selection moves on to
    /// the screen that follows; other actions belong to the screens.
    pub fn handle_navigation(&mut self, action: NavigationAction)
        ensures
            action == NavigationAction::Quit ==> final(self).quitting() && final(self).current()
                == old(self).current() && final(self).previous() == old(self).previous(),
            action == NavigationAction::Back && old(self).current() == AppState::Start
                ==> final(self).quitting() && final(self).current() == old(self).current()
                && final(self).previous() == old(self).previous(),
            action == NavigationAction::Back && old(self).current() != AppState::Start ==> {
                &&& final(self).quitting() == old(self).quitting()
                &&& final(self).previous() is None
                &&& final(self).current() == match old(self).previous() {
                    Some(p) => p,
                    None => AppState::Start,
                }
            },
            action == NavigationAction::Select ==> {
                let t = select_target(old(self).current());
                &&& final(self).quitting() == old(self).quitting()
                &&& final(self).current() == t
                &&& t != old(self).current() ==> final(self).previous() == Some(old(self).current())
                &&& t == old(self).current() ==> final(self).previous() == old(self).previous()
            },
            action != NavigationAction::Quit && action != NavigationAction::Back && action
                != NavigationAction::Select ==> final(self).quitting() == old(self).quitting()
                && final(self).current() == old(self).current() && final(self).previous()
                == old(self).previous(),
    {
        match action {
            NavigationAction::Quit => {
                self.should_quit = true;
                return;
            },
            NavigationAction::Back => {
                match self.current_state {
                    AppState::Start => {
                        self.should_quit = true;
                    },
                    _ => {
                        self.go_back();
                    },
                }
                return;
            },
            _ => {},
        }
        match (self.current_state, action) {
            (AppState::Config, NavigationAction::Select) => {
                self.transition_to(AppState::Running);
            },
            (AppState::Running, NavigationAction::Select) => {
                self.transition_to(AppState::Results);
            },
            (AppState::Results, NavigationAction::Select) => {
                self.transition_to(AppState::Start);
            },
            (AppState::History, NavigationAction::Select) => {
                self.transition_to(AppState::Results);
            },
            (AppState::Settings, NavigationAction::Select) => {
                self.transition_to(AppState::Start);
            },
            _ => {},
        }
    }
}

impl Default for StateManager {
    fn default() -> (r: Self)
        ensures
            r.current() == AppState::Start,
            r.previous() is None,
            !r.quitting(),
    {
        Self::new()
    }
}

impl Default for AppState {
    fn default() -> (r: Self)
        ensures
            r == AppState::Start,
    {
        AppState::Start
    }
}

/// The keys that navigation distinguishes.
#[derive(Debug, Clone, Copy, PartialEq, Eq, Structural)]
pub enum KeyCode {
    Char(char),
    Up,
    Down,
    Left,
    Right,
    Enter,
    Esc,
    Backspace,
    Tab,
    Other,
}

/// A key press: the key, and whether Control or Shift was held.
#[derive(Debug, Clone, Copy, PartialEq, Eq, Structural)]
pub struct KeyEvent {
    pub code: KeyCode,
    pub control: bool,
    pub shift: bool,
}

impl KeyEvent {
    /// A key press with the given modifiers.
    pub fn new(code: KeyCode, control: bool, shift: bool) -> (r: Self)
        ensures
            r == (KeyEvent { code, control, shift }),
    {
        KeyEvent { code, control, shift }
    }
}

/// The navigation action of a key: q, Q and Ctrl+C quit; arrows and
/// h/j/k/l move; Enter and Space select; Esc and Backspace go back; Tab
/// moves on, Shift+Tab back; anything else does nothing.
pub open spec fn key_action(key: KeyEvent) -> NavigationAction {
    match key.code {
        KeyCode::Char(c) => if c == 'q' || c == 'Q' {
            NavigationAction::Quit
        } else if c == 'c' && key.control {
            NavigationAction::Quit
        } else if c == 'k' {
            NavigationAction::Up
        } else if c == 'j' {
            NavigationAction::Down
        } else if c == 'h' {
            NavigationAction::Left
        } else if c == 'l' {
            NavigationAction::Right
        } else if c == ' ' {
            NavigationAction::Select
        } else {
            NavigationAction::NoAction
        },
        KeyCode::Up => NavigationAction::Up,
        KeyCode::Down => NavigationAction::Down,
        KeyCode::Left => NavigationAction::Left,
        KeyCode::Right => NavigationAction::Right,
        KeyCode::Enter => NavigationAction::Select,
        KeyCode::Esc | KeyCode::Backspace => NavigationAction::Back,
        KeyCode::Tab => if key.shift { NavigationAction::Previous } else { NavigationAction::Next },
        KeyCode::Other => NavigationAction::NoAction,
    }
}

impl StateManager {
    /// Convert a key press to a navigation action
    pub fn key_to_navigation(key: KeyEvent) -> (r: NavigationAction)
        ensures
            r == key_action(key),
    {
        match key.code {
            KeyCode::Char(c) => {
                if c == 'q' || c == 'Q' {
                    NavigationAction::Quit
                } else if c == 'c' && key.control {
                    NavigationAction::Quit
                } else if c == 'k' {
                    NavigationAction::Up
                } else if c == 'j' {
                    NavigationAction::Down
                } else if c == 'h' {
                    NavigationAction::Left
                } else if c == 'l' {
                    NavigationAction::Right
                } else if c == ' ' {
                    NavigationAction::Select
                } else {
                    NavigationAction::NoAction
                }
            },
            KeyCode::Up => NavigationAction::Up,
            KeyCode::Down => NavigationAction::Down,
            KeyCode::Left => NavigationAction::Left,
            KeyCode::Right => NavigationAction::Right,
            KeyCode::Enter => NavigationAction::Select,
            KeyCode::Esc | KeyCode::Backspace => NavigationAction::Back,
            KeyCode::Tab => {
                if key.shift {
                    NavigationAction::Previous
                } else {
                    NavigationAction::Next
                }
            },
            KeyCode::Other => NavigationAction::NoAction,
        }
    }

    /// Handle a key press: its navigation action, applied.
    pub fn handle_key_event(&mut self, key: KeyEvent)
        ensures
            key_action(key) == NavigationAction::Quit ==> final(self).quitting(),
            key_action(key) == NavigationAction::Back && old(self).current() == AppState::Start
                ==> final(self).quitting(),
            key_action(key) == NavigationAction::Select ==> final(self).current() == select_target(
                old(self).current(),
            ),
    {
        let action = Self::key_to_navigation(key);
        self.handle_navigation(action);
    }
}

} // verus!
