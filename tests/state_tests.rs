use diorb::state::{AppState, KeyCode, KeyEvent, NavigationAction, ResultAction, StateManager};

#[test]
fn test_result_actions() {
    let actions = ResultAction::all();
    assert_eq!(actions.len(), 2);
    assert_eq!(actions[0], ResultAction::Save);
    assert_eq!(actions[1], ResultAction::Back);

    assert_eq!(ResultAction::Save.display_text(), "Save Results");
    assert_eq!(ResultAction::Back.display_text(), "Back to Menu");
}

#[test]
fn test_state_manager_creation() {
    let state_manager = StateManager::new();
    assert_eq!(*state_manager.current_state(), AppState::Start);
    assert!(!state_manager.should_quit());
    assert!(state_manager.previous_state().is_none());
}

#[test]
fn test_state_transitions() {
    let mut state_manager = StateManager::new();

    state_manager.transition_to(AppState::Config);
    assert_eq!(*state_manager.current_state(), AppState::Config);
    assert_eq!(state_manager.previous_state(), Some(&AppState::Start));

    state_manager.transition_to(AppState::Running);
    assert_eq!(*state_manager.current_state(), AppState::Running);
    assert_eq!(state_manager.previous_state(), Some(&AppState::Config));
}

#[test]
fn test_go_back() {
    let mut state_manager = StateManager::new();

    state_manager.transition_to(AppState::Config);
    state_manager.go_back();
    assert_eq!(*state_manager.current_state(), AppState::Start);
    assert!(state_manager.previous_state().is_none());

    state_manager.go_back();
    assert_eq!(*state_manager.current_state(), AppState::Start);
}

#[test]
fn test_quit_handling() {
    let mut state_manager = StateManager::new();

    state_manager.quit();
    assert!(state_manager.should_quit());

    let mut state_manager2 = StateManager::new();
    state_manager2.handle_navigation(NavigationAction::Quit);
    assert!(state_manager2.should_quit());
}

#[test]
fn test_back_navigation_from_start() {
    let mut state_manager = StateManager::new();
    state_manager.handle_navigation(NavigationAction::Back);
    assert!(state_manager.should_quit());
}

#[test]
fn test_state_specific_navigation() {
    let mut state_manager = StateManager::new();

    state_manager.transition_to(AppState::Config);
    state_manager.handle_navigation(NavigationAction::Select);
    assert_eq!(*state_manager.current_state(), AppState::Running);

    state_manager.handle_navigation(NavigationAction::Select);
    assert_eq!(*state_manager.current_state(), AppState::Results);

    state_manager.handle_navigation(NavigationAction::Select);
    assert_eq!(*state_manager.current_state(), AppState::Start);
}

#[test]
fn test_state_manager_integration() {
    let mut state_manager = StateManager::new();

    assert_eq!(*state_manager.current_state(), AppState::Start);

    state_manager.transition_to(AppState::Config);
    assert_eq!(*state_manager.current_state(), AppState::Config);

    state_manager.transition_to(AppState::Running);
    assert_eq!(*state_manager.current_state(), AppState::Running);

    state_manager.go_back();
    assert_eq!(*state_manager.current_state(), AppState::Config);

    state_manager.go_back();
    assert_eq!(*state_manager.current_state(), AppState::Start);
}

#[test]
fn back_from_inner_screen_returns_to_previous() {
    let mut m = StateManager::new();
    m.transition_to(AppState::History);
    m.handle_navigation(NavigationAction::Back);
    assert_eq!(*m.current_state(), AppState::Start);
    assert!(!m.should_quit());
}

#[test]
fn transition_to_same_state_keeps_previous() {
    let mut m = StateManager::new();
    m.transition_to(AppState::Config);
    m.transition_to(AppState::Config);
    assert_eq!(m.previous_state(), Some(&AppState::Start));
}

#[test]
fn other_actions_change_nothing() {
    let mut m = StateManager::new();
    m.transition_to(AppState::Settings);
    m.handle_navigation(NavigationAction::Up);
    m.handle_navigation(NavigationAction::NoAction);
    assert_eq!(*m.current_state(), AppState::Settings);
    m.handle_navigation(NavigationAction::Select);
    assert_eq!(*m.current_state(), AppState::Start);
}

fn key(code: KeyCode) -> KeyEvent {
    KeyEvent::new(code, false, false)
}

#[test]
fn test_key_to_navigation() {
    assert_eq!(StateManager::key_to_navigation(key(KeyCode::Char('q'))), NavigationAction::Quit);
    assert_eq!(StateManager::key_to_navigation(key(KeyCode::Char('Q'))), NavigationAction::Quit);
    assert_eq!(
        StateManager::key_to_navigation(KeyEvent::new(KeyCode::Char('c'), true, false)),
        NavigationAction::Quit
    );

    assert_eq!(StateManager::key_to_navigation(key(KeyCode::Up)), NavigationAction::Up);
    assert_eq!(StateManager::key_to_navigation(key(KeyCode::Char('k'))), NavigationAction::Up);
    assert_eq!(StateManager::key_to_navigation(key(KeyCode::Down)), NavigationAction::Down);
    assert_eq!(StateManager::key_to_navigation(key(KeyCode::Char('j'))), NavigationAction::Down);

    assert_eq!(StateManager::key_to_navigation(key(KeyCode::Enter)), NavigationAction::Select);
    assert_eq!(StateManager::key_to_navigation(key(KeyCode::Char(' '))), NavigationAction::Select);

    assert_eq!(StateManager::key_to_navigation(key(KeyCode::Esc)), NavigationAction::Back);

    assert_eq!(StateManager::key_to_navigation(key(KeyCode::Tab)), NavigationAction::Next);
    assert_eq!(
        StateManager::key_to_navigation(KeyEvent::new(KeyCode::Tab, false, true)),
        NavigationAction::Previous
    );
}

#[test]
fn test_handle_key_event() {
    let mut state_manager = StateManager::new();
    state_manager.handle_key_event(key(KeyCode::Char('q')));
    assert!(state_manager.should_quit());

    let mut state_manager2 = StateManager::new();
    state_manager2.handle_key_event(key(KeyCode::Esc));
    assert!(state_manager2.should_quit());
}

#[test]
fn plain_c_does_not_quit() {
    assert_eq!(StateManager::key_to_navigation(key(KeyCode::Char('c'))), NavigationAction::NoAction);
    assert_eq!(StateManager::key_to_navigation(key(KeyCode::Other)), NavigationAction::NoAction);
}
