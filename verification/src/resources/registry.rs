use crate::resources::game_state::GameState;
use vstd::prelude::*;

verus! {

/// The table of legal moves. From the main menu the player may open the new
/// worldkeeper screen or start the game; both of those lead back to the main
/// menu; the game may be paused and resumed; and every screen, the last one
/// included, may give way to the game-over screen. No other move is legal.
pub open spec fn spec_allowed(current: GameState, requested: GameState) -> bool {
    match (current, requested) {
        (GameState::MainMenu, GameState::NewWorldkeeper) => true,
        (GameState::MainMenu, GameState::InGame) => true,
        (GameState::NewWorldkeeper, GameState::MainMenu) => true,
        (GameState::InGame, GameState::MainMenu) => true,
        (GameState::InGame, GameState::Paused) => true,
        (GameState::Paused, GameState::InGame) => true,
        (_, GameState::GameOver) => true,
        _ => false,
    }
}

/// Whether the move from `current` to `requested` is legal. Nothing else in
/// the crate decides this.
#[verifier::when_used_as_spec(spec_allowed)]
pub fn allowed(current: GameState, requested: GameState) -> (legal: bool)
    ensures
        legal == spec_allowed(current, requested),
{
    match (current, requested) {
        (GameState::MainMenu, GameState::NewWorldkeeper) => true,
        (GameState::MainMenu, GameState::InGame) => true,
        (GameState::NewWorldkeeper, GameState::MainMenu) => true,
        (GameState::InGame, GameState::MainMenu) => true,
        (GameState::InGame, GameState::Paused) => true,
        (GameState::Paused, GameState::InGame) => true,
        (_, GameState::GameOver) => true,
        _ => false,
    }
}

/// The five screens, the starting screen first.
pub open spec fn all_screens() -> Seq<GameState> {
    seq![
        GameState::MainMenu,
        GameState::NewWorldkeeper,
        GameState::InGame,
        GameState::Paused,
        GameState::GameOver,
    ]
}

/// Lists every screen once.
pub fn screens() -> (list: Vec<GameState>)
    ensures
        list@ == all_screens(),
        forall|screen: GameState| list@.contains(screen),
        list@.no_duplicates(),
{
    let mut list: Vec<GameState> = Vec::new();
    list.push(GameState::MainMenu);
    list.push(GameState::NewWorldkeeper);
    list.push(GameState::InGame);
    list.push(GameState::Paused);
    list.push(GameState::GameOver);
    proof {
        assert(list@ =~= all_screens());
        lemma_all_screens_complete();
    }
    list
}

/// The list of screens misses none and repeats none.
pub proof fn lemma_all_screens_complete()
    ensures
        forall|screen: GameState| all_screens().contains(screen),
        all_screens().no_duplicates(),
{
    let list = all_screens();
    assert forall|screen: GameState| list.contains(screen) by {
        match screen {
            GameState::MainMenu => assert(list[0] == screen),
            GameState::NewWorldkeeper => assert(list[1] == screen),
            GameState::InGame => assert(list[2] == screen),
            GameState::Paused => assert(list[3] == screen),
            GameState::GameOver => assert(list[4] == screen),
        }
    }
}

/// Each screen after the first is one legal move from the screen before it.
pub open spec fn follows_edges(path: Seq<GameState>) -> bool {
    forall|i: int| 0 < i < path.len() ==> spec_allowed(path[i - 1], #[trigger] path[i])
}

/// The main menu is entered from the new worldkeeper screen and from the game,
/// and from nowhere else.
pub proof fn lemma_ways_back_to_menu(current: GameState)
    ensures
        spec_allowed(current, GameState::MainMenu) <==> (current == GameState::NewWorldkeeper
            || current == GameState::InGame),
{
}

/// No screen is closed to the game-over screen, and no move leaves a screen
/// for itself except on the game-over screen.
pub proof fn lemma_game_over_is_open(current: GameState)
    ensures
        spec_allowed(current, GameState::GameOver),
        spec_allowed(current, current) <==> current == GameState::GameOver,
{
}

} // verus!
