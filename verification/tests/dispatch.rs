use worldkeeper::components::ui::{ButtonState, Interaction, MenuAction, MenuButton, MenuTheme};
use worldkeeper::resources::screen_state::{Effect, ScreenState};
use worldkeeper::resources::GameState;
use worldkeeper::systems::menu::{handle_escape_to_menu, handle_menu_actions};

fn changed(interaction: Interaction, action: MenuAction) -> ButtonState {
    ButtonState {
        interaction,
        changed: true,
        button: MenuButton::new(action),
        background: MenuTheme::BUTTON_NORMAL,
    }
}

fn unchanged(interaction: Interaction, action: MenuAction) -> ButtonState {
    ButtonState { changed: false, ..changed(interaction, action) }
}

fn in_game() -> ScreenState {
    let mut state = ScreenState::new();
    state.request(GameState::InGame);
    state.apply_pending();
    state
}

#[test]
fn press_on_start_game_enters_the_game() {
    let mut state = ScreenState::new();
    let mut effects = Vec::new();
    let buttons = vec![changed(Interaction::Pressed, MenuAction::StartNewGame)];
    handle_menu_actions(&buttons, &mut state, &mut effects);
    assert!(effects.is_empty());
    assert_eq!(state.pending(), Some(GameState::InGame));
    let effects = state.apply_pending();
    assert_eq!(state.current(), GameState::InGame);
    assert_eq!(state.count_elements(GameState::MainMenu), 0);
    let entered = effects.iter().filter(|e| **e == Effect::Enter(GameState::InGame)).count();
    assert_eq!(entered, 1);
    assert_eq!(effects, vec![Effect::Exit(GameState::MainMenu), Effect::Enter(GameState::InGame)]);
}

#[test]
fn press_on_start_game_enters_the_game_within_one_tick() {
    let mut state = ScreenState::new();
    let mut buttons = vec![changed(Interaction::Pressed, MenuAction::StartNewGame)];
    let effects = state.tick(false, &mut buttons);
    assert_eq!(effects, vec![Effect::Exit(GameState::MainMenu), Effect::Enter(GameState::InGame)]);
    assert_eq!(state.current(), GameState::InGame);
    assert_eq!(state.pending(), None);
    assert_eq!(state.count_elements(GameState::MainMenu), 0);
    assert!(state.elements().is_empty());
    assert_eq!(buttons[0].background, MenuTheme::BUTTON_PRESSED);
}

#[test]
fn escape_in_game_returns_to_main_menu() {
    let mut state = in_game();
    handle_escape_to_menu(true, &mut state);
    assert_eq!(state.pending(), Some(GameState::MainMenu));
    state.apply_pending();
    assert_eq!(state.current(), GameState::MainMenu);
    assert_eq!(state.elements().len(), 9);
}

#[test]
fn escape_in_game_returns_to_main_menu_within_one_tick() {
    let mut state = in_game();
    let effects = state.tick(true, &mut Vec::new());
    assert_eq!(effects, vec![Effect::Exit(GameState::InGame), Effect::Enter(GameState::MainMenu)]);
    assert_eq!(state.current(), GameState::MainMenu);
    assert_eq!(state.count_elements(GameState::MainMenu), 9);
}

#[test]
fn escape_on_new_worldkeeper_screen_returns_to_main_menu() {
    let mut state = ScreenState::new();
    state.request(GameState::NewWorldkeeper);
    state.apply_pending();
    let effects = state.tick(true, &mut Vec::new());
    assert_eq!(
        effects,
        vec![Effect::Exit(GameState::NewWorldkeeper), Effect::Enter(GameState::MainMenu)]
    );
    assert_eq!(state.current(), GameState::MainMenu);
    assert_eq!(state.count_elements(GameState::NewWorldkeeper), 0);
}

#[test]
fn escape_on_main_menu_does_nothing() {
    let mut state = ScreenState::new();
    handle_escape_to_menu(true, &mut state);
    assert_eq!(state.pending(), None);
    assert!(state.apply_pending().is_empty());
    assert_eq!(state.current(), GameState::MainMenu);
    let effects = state.tick(true, &mut Vec::new());
    assert!(effects.is_empty());
    assert_eq!(state.current(), GameState::MainMenu);
    assert_eq!(state.elements().len(), 9);
}

#[test]
fn escape_on_pause_and_game_over_does_nothing() {
    let mut state = in_game();
    state.request(GameState::Paused);
    state.apply_pending();
    assert!(state.tick(true, &mut Vec::new()).is_empty());
    assert_eq!(state.current(), GameState::Paused);
    state.request(GameState::GameOver);
    state.apply_pending();
    assert!(state.tick(true, &mut Vec::new()).is_empty());
    assert_eq!(state.current(), GameState::GameOver);
}

#[test]
fn escape_not_pressed_does_nothing() {
    let mut state = in_game();
    handle_escape_to_menu(false, &mut state);
    assert_eq!(state.pending(), None);
    assert!(state.tick(false, &mut Vec::new()).is_empty());
    assert_eq!(state.current(), GameState::InGame);
}

#[test]
fn press_on_quit_terminates_once_and_requests_nothing() {
    let mut state = ScreenState::new();
    let mut effects = Vec::new();
    let buttons = vec![changed(Interaction::Pressed, MenuAction::Quit)];
    handle_menu_actions(&buttons, &mut state, &mut effects);
    assert_eq!(effects, vec![Effect::Terminate]);
    assert_eq!(state.pending(), None);
    assert_eq!(state.current(), GameState::MainMenu);
}

#[test]
fn press_on_quit_terminates_once_within_one_tick() {
    let mut state = ScreenState::new();
    let mut buttons = vec![changed(Interaction::Pressed, MenuAction::Quit)];
    let effects = state.tick(false, &mut buttons);
    assert_eq!(effects, vec![Effect::Terminate]);
    assert_eq!(state.current(), GameState::MainMenu);
    assert_eq!(state.pending(), None);
    assert_eq!(state.elements().len(), 9);
}

#[test]
fn press_on_settings_does_nothing() {
    let mut state = ScreenState::new();
    let mut buttons = vec![changed(Interaction::Pressed, MenuAction::Settings)];
    let effects = state.tick(false, &mut buttons);
    assert!(effects.is_empty());
    assert_eq!(state.current(), GameState::MainMenu);
    assert_eq!(state.pending(), None);
}

#[test]
fn press_on_new_worldkeeper_opens_its_screen() {
    let mut state = ScreenState::new();
    let mut buttons = vec![changed(Interaction::Pressed, MenuAction::NewWorldkeeper)];
    let effects = state.tick(false, &mut buttons);
    assert_eq!(
        effects,
        vec![Effect::Exit(GameState::MainMenu), Effect::Enter(GameState::NewWorldkeeper)]
    );
    assert_eq!(state.current(), GameState::NewWorldkeeper);
    assert_eq!(state.elements().len(), 4);
}

#[test]
fn hover_and_release_request_nothing() {
    let mut state = ScreenState::new();
    let mut buttons = vec![
        changed(Interaction::Hovered, MenuAction::StartNewGame),
        changed(Interaction::Idle, MenuAction::Quit),
        changed(Interaction::Hovered, MenuAction::Quit),
    ];
    let effects = state.tick(false, &mut buttons);
    assert!(effects.is_empty());
    assert_eq!(state.current(), GameState::MainMenu);
}

#[test]
fn last_press_of_a_tick_wins() {
    let mut state = ScreenState::new();
    let mut effects = Vec::new();
    let buttons = vec![
        changed(Interaction::Pressed, MenuAction::NewWorldkeeper),
        changed(Interaction::Pressed, MenuAction::StartNewGame),
        changed(Interaction::Pressed, MenuAction::Settings),
        changed(Interaction::Hovered, MenuAction::NewWorldkeeper),
    ];
    handle_menu_actions(&buttons, &mut state, &mut effects);
    assert_eq!(state.pending(), Some(GameState::InGame));
    state.apply_pending();
    assert_eq!(state.current(), GameState::InGame);
}

#[test]
fn each_quit_press_gives_one_signal_before_the_move() {
    let mut state = ScreenState::new();
    let mut buttons = vec![
        changed(Interaction::Pressed, MenuAction::Quit),
        changed(Interaction::Pressed, MenuAction::StartNewGame),
        changed(Interaction::Pressed, MenuAction::Quit),
    ];
    let effects = state.tick(false, &mut buttons);
    assert_eq!(
        effects,
        vec![
            Effect::Terminate,
            Effect::Terminate,
            Effect::Exit(GameState::MainMenu),
            Effect::Enter(GameState::InGame),
        ]
    );
}

#[test]
fn buttons_of_a_screen_that_is_not_current_never_act() {
    let mut state = in_game();
    let mut buttons = vec![
        changed(Interaction::Pressed, MenuAction::Quit),
        changed(Interaction::Pressed, MenuAction::NewWorldkeeper),
    ];
    let before = buttons.clone();
    let effects = state.tick(false, &mut buttons);
    assert!(effects.is_empty());
    assert_eq!(state.current(), GameState::InGame);
    assert_eq!(state.pending(), None);
    assert_eq!(buttons, before);
}

#[test]
fn handlers_act_on_the_state_they_are_given() {
    let mut state = in_game();
    let mut effects = vec![Effect::Terminate];
    let buttons = vec![
        changed(Interaction::Pressed, MenuAction::NewWorldkeeper),
        changed(Interaction::Pressed, MenuAction::Quit),
    ];
    handle_menu_actions(&buttons, &mut state, &mut effects);
    assert_eq!(state.pending(), None);
    assert_eq!(effects, vec![Effect::Terminate, Effect::Terminate]);
}

#[test]
fn button_held_down_acts_only_in_the_tick_it_went_down() {
    let mut state = ScreenState::new();
    let mut buttons = vec![
        unchanged(Interaction::Pressed, MenuAction::StartNewGame),
        unchanged(Interaction::Pressed, MenuAction::Quit),
    ];
    let before = buttons.clone();
    let effects = state.tick(false, &mut buttons);
    assert!(effects.is_empty());
    assert_eq!(state.current(), GameState::MainMenu);
    assert_eq!(state.pending(), None);
    assert_eq!(buttons, before);
}

#[test]
fn unchanged_press_does_not_override_a_new_one() {
    let mut state = ScreenState::new();
    let mut effects = Vec::new();
    let buttons = vec![
        changed(Interaction::Pressed, MenuAction::NewWorldkeeper),
        unchanged(Interaction::Pressed, MenuAction::StartNewGame),
    ];
    handle_menu_actions(&buttons, &mut state, &mut effects);
    assert_eq!(state.pending(), Some(GameState::NewWorldkeeper));
}
