use worldkeeper::resources::screen_state::{Effect, ScreenState};
use worldkeeper::resources::GameState;

const ALL: [GameState; 5] = [
    GameState::MainMenu,
    GameState::NewWorldkeeper,
    GameState::InGame,
    GameState::Paused,
    GameState::GameOver,
];

fn assert_only_current_owns_elements(state: &ScreenState) {
    for screen in ALL {
        if screen != state.current() {
            assert_eq!(state.count_elements(screen), 0);
        }
    }
    assert_eq!(state.count_elements(state.current()), state.elements().len());
    for element in state.elements() {
        assert_eq!(element.screen, state.current());
    }
}

#[test]
fn startup_shows_the_main_menu() {
    let state = ScreenState::new();
    assert_eq!(state.current(), GameState::MainMenu);
    assert_eq!(state.pending(), None);
    assert_eq!(state.elements().len(), 9);
    assert_eq!(state.count_elements(GameState::MainMenu), 9);
    assert_only_current_owns_elements(&state);
}

#[test]
fn legal_request_is_recorded_and_not_yet_applied() {
    let mut state = ScreenState::new();
    assert!(state.request(GameState::NewWorldkeeper));
    assert_eq!(state.pending(), Some(GameState::NewWorldkeeper));
    assert_eq!(state.current(), GameState::MainMenu);
    assert_eq!(state.elements().len(), 9);
}

#[test]
fn apply_pending_moves_and_reports_exit_before_enter() {
    let mut state = ScreenState::new();
    state.request(GameState::NewWorldkeeper);
    let effects = state.apply_pending();
    assert_eq!(
        effects,
        vec![Effect::Exit(GameState::MainMenu), Effect::Enter(GameState::NewWorldkeeper)]
    );
    assert_eq!(state.current(), GameState::NewWorldkeeper);
    assert_eq!(state.pending(), None);
    assert_eq!(state.elements().len(), 4);
    assert_eq!(state.count_elements(GameState::MainMenu), 0);
    assert_eq!(state.count_elements(GameState::NewWorldkeeper), 4);
}

#[test]
fn apply_pending_without_request_changes_nothing() {
    let mut state = ScreenState::new();
    let before = state.elements().clone();
    let effects = state.apply_pending();
    assert!(effects.is_empty());
    assert_eq!(state.current(), GameState::MainMenu);
    assert_eq!(state.pending(), None);
    assert_eq!(state.elements(), &before);
}

#[test]
fn second_apply_pending_in_a_row_changes_nothing() {
    let mut state = ScreenState::new();
    state.request(GameState::InGame);
    assert_eq!(state.apply_pending().len(), 2);
    assert!(state.apply_pending().is_empty());
    assert_eq!(state.current(), GameState::InGame);
}

#[test]
fn later_request_replaces_earlier_one() {
    let mut state = ScreenState::new();
    assert!(state.request(GameState::NewWorldkeeper));
    assert!(state.request(GameState::InGame));
    assert_eq!(state.pending(), Some(GameState::InGame));
    let effects = state.apply_pending();
    assert_eq!(effects, vec![Effect::Exit(GameState::MainMenu), Effect::Enter(GameState::InGame)]);
    assert_eq!(state.current(), GameState::InGame);
}

#[test]
fn later_illegal_request_leaves_earlier_one_pending() {
    let mut state = ScreenState::new();
    assert!(state.request(GameState::InGame));
    assert!(!state.request(GameState::Paused));
    assert_eq!(state.pending(), Some(GameState::InGame));
    state.apply_pending();
    assert_eq!(state.current(), GameState::InGame);
}

#[test]
fn illegal_request_is_dropped() {
    let mut state = ScreenState::new();
    assert!(!state.request(GameState::Paused));
    assert_eq!(state.current(), GameState::MainMenu);
    assert_eq!(state.pending(), None);
    assert!(state.apply_pending().is_empty());
    assert_eq!(state.current(), GameState::MainMenu);
    assert_eq!(state.elements().len(), 9);
}

#[test]
fn request_for_the_current_screen_is_dropped() {
    let mut state = ScreenState::new();
    assert!(!state.request(GameState::MainMenu));
    assert_eq!(state.pending(), None);
}

#[test]
fn request_alone_leaves_the_current_screen() {
    let mut state = ScreenState::new();
    assert!(state.request(GameState::GameOver));
    assert_eq!(state.current(), GameState::MainMenu);
    assert_eq!(state.elements().len(), 9);
    state.apply_pending();
    assert_eq!(state.current(), GameState::GameOver);
    assert!(state.elements().is_empty());
}

#[test]
fn game_over_may_be_entered_again() {
    let mut state = ScreenState::new();
    state.request(GameState::GameOver);
    state.apply_pending();
    assert!(state.request(GameState::GameOver));
    let effects = state.apply_pending();
    assert_eq!(effects, vec![Effect::Exit(GameState::GameOver), Effect::Enter(GameState::GameOver)]);
    assert_eq!(state.current(), GameState::GameOver);
}

#[test]
fn walk_along_legal_moves_keeps_one_screen_alive() {
    let path = [
        GameState::NewWorldkeeper,
        GameState::MainMenu,
        GameState::InGame,
        GameState::Paused,
        GameState::InGame,
        GameState::MainMenu,
        GameState::GameOver,
        GameState::GameOver,
    ];
    let sizes = [4, 9, 0, 0, 0, 9, 0, 0];
    let mut state = ScreenState::new();
    for (target, size) in path.into_iter().zip(sizes) {
        let left = state.current();
        assert!(state.request(target));
        let effects = state.apply_pending();
        assert_eq!(effects, vec![Effect::Exit(left), Effect::Enter(target)]);
        assert_eq!(state.current(), target);
        assert_eq!(state.pending(), None);
        assert_eq!(state.elements().len(), size);
        assert_only_current_owns_elements(&state);
    }
}

#[test]
fn walk_over_every_request_keeps_one_screen_alive() {
    let mut state = ScreenState::new();
    for round in 0..3 {
        for first in ALL {
            for second in ALL {
                let before = state.current();
                let accepted = state.request(first);
                state.apply_pending();
                assert_eq!(state.current(), if accepted { first } else { before });
                assert_only_current_owns_elements(&state);
                state.request(second);
                state.apply_pending();
                assert_only_current_owns_elements(&state);
                if round == 1 && state.current() == GameState::GameOver {
                    state = ScreenState::new();
                }
            }
        }
    }
}

#[test]
fn menu_is_rebuilt_once_on_return() {
    let mut state = ScreenState::new();
    let first = state.elements().clone();
    state.request(GameState::NewWorldkeeper);
    state.apply_pending();
    state.request(GameState::MainMenu);
    state.apply_pending();
    assert_eq!(state.elements(), &first);
}
