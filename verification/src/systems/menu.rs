use crate::components::element::{
    despawn_screen, linked_from, owned_by, spawn, untagged, Element, Marker, Style, Val, Widget,
};
use crate::components::ui::{
    ActionOutcome, ButtonState, ButtonText, MainMenu, MenuAction, MenuButton, MenuTheme, MenuTitle,
};
use crate::resources::game_state::GameState;
use crate::resources::registry::{lemma_ways_back_to_menu, spec_allowed};
use crate::resources::screen_state::{Effect, ScreenModel, ScreenState};
use vstd::prelude::*;

verus! {

/// The layout of the menu's root: it fills the window and stacks its children
/// in the centre.
pub open spec fn spec_root_style() -> Style {
    Style {
        width: Val::Percent(100),
        height: Val::Percent(100),
        column: true,
        justify_center: true,
        align_center: true,
        row_gap: 20,
        margin_top: 0,
    }
}

/// The layout of the column that holds the buttons.
pub open spec fn spec_button_column_style() -> Style {
    Style {
        width: Val::Auto,
        height: Val::Auto,
        column: true,
        justify_center: false,
        align_center: true,
        row_gap: 15,
        margin_top: 40,
    }
}

/// The layout of one menu button.
pub open spec fn spec_button_style() -> Style {
    Style {
        width: Val::Px(300),
        height: Val::Px(60),
        column: false,
        justify_center: true,
        align_center: true,
        row_gap: 0,
        margin_top: 0,
    }
}

/// A menu button under `parent` and, under the button, its caption. The
/// button stands at index `at`.
#[verifier::opaque]
pub open spec fn menu_button(at: nat, parent: usize, text: &'static str, action: MenuAction) -> Seq<
    Element,
> {
    seq![
        Element {
            screen: GameState::MainMenu,
            parent: Some(parent),
            widget: Widget::Button {
                style: spec_button_style(),
                background: MenuTheme::BUTTON_NORMAL,
            },
            marker: Marker::Button(MenuButton { action }),
        },
        Element {
            screen: GameState::MainMenu,
            parent: Some(at as usize),
            widget: Widget::Text {
                content: text,
                font_size: MenuTheme::BUTTON_FONT_SIZE,
                color: MenuTheme::BUTTON_TEXT,
            },
            marker: Marker::Label(ButtonText),
        },
    ]
}

/// The main menu, built where `base` elements exist already: a camera, and a
/// root that holds the title, the subtitle and a column of two buttons, one
/// to open the new worldkeeper screen and one to start the game.
#[verifier::opaque]
pub open spec fn main_menu_tree(base: nat) -> Seq<Element> {
    seq![
        Element {
            screen: GameState::MainMenu,
            parent: None,
            widget: Widget::Camera,
            marker: Marker::Unmarked,
        },
        Element {
            screen: GameState::MainMenu,
            parent: None,
            widget: Widget::Node {
                style: spec_root_style(),
                backdrop: Some(MenuTheme::BACKGROUND_COLOR),
            },
            marker: Marker::Root(MainMenu),
        },
        Element {
            screen: GameState::MainMenu,
            parent: Some((base + 1) as usize),
            widget: Widget::Text {
                content: "WorldKeeper",
                font_size: MenuTheme::TITLE_FONT_SIZE,
                color: MenuTheme::TITLE_COLOR,
            },
            marker: Marker::Title(MenuTitle),
        },
        Element {
            screen: GameState::MainMenu,
            parent: Some((base + 1) as usize),
            widget: Widget::Text { content: "God Simulation Game", font_size: 24, color: (70, 70, 70) },
            marker: Marker::Unmarked,
        },
        Element {
            screen: GameState::MainMenu,
            parent: Some((base + 1) as usize),
            widget: Widget::Node { style: spec_button_column_style(), backdrop: None },
            marker: Marker::Unmarked,
        },
    ] + menu_button(base + 5, (base + 4) as usize, "New Worldkeeper", MenuAction::NewWorldkeeper)
        + menu_button(base + 7, (base + 4) as usize, "Start New Game", MenuAction::StartNewGame)
}

/// Setup the main menu UI
pub fn setup_main_menu(elements: &mut Vec<Element>)
    ensures
        final(elements)@ == old(elements)@ + main_menu_tree(old(elements)@.len()),
{
    // Spawn a camera for UI rendering
    spawn(
        elements,
        Element {
            screen: GameState::MainMenu,
            parent: None,
            widget: Widget::Camera,
            marker: Marker::Unmarked,
        },
    );

    // Main menu root container
    let root: usize = spawn(
        elements,
        Element {
            screen: GameState::MainMenu,
            parent: None,
            widget: Widget::Node {
                style: Style {
                    width: Val::Percent(100),
                    height: Val::Percent(100),
                    column: true,
                    justify_center: true,
                    align_center: true,
                    row_gap: 20,
                    margin_top: 0,
                },
                backdrop: Some(MenuTheme::BACKGROUND_COLOR),
            },
            marker: Marker::Root(MainMenu),
        },
    );

    // Title
    spawn(
        elements,
        Element {
            screen: GameState::MainMenu,
            parent: Some(root),
            widget: Widget::Text {
                content: "WorldKeeper",
                font_size: MenuTheme::TITLE_FONT_SIZE,
                color: MenuTheme::TITLE_COLOR,
            },
            marker: Marker::Title(MenuTitle),
        },
    );

    // Subtitle
    spawn(
        elements,
        Element {
            screen: GameState::MainMenu,
            parent: Some(root),
            widget: Widget::Text { content: "God Simulation Game", font_size: 24, color: (70, 70, 70) },
            marker: Marker::Unmarked,
        },
    );

    // Button container
    let column: usize = spawn(
        elements,
        Element {
            screen: GameState::MainMenu,
            parent: Some(root),
            widget: Widget::Node {
                style: Style {
                    width: Val::Auto,
                    height: Val::Auto,
                    column: true,
                    justify_center: false,
                    align_center: true,
                    row_gap: 15,
                    margin_top: 40,
                },
                backdrop: None,
            },
            marker: Marker::Unmarked,
        },
    );

    // New Worldkeeper button
    create_menu_button(elements, column, "New Worldkeeper", MenuAction::NewWorldkeeper);

    // Start New Game button
    create_menu_button(elements, column, "Start New Game", MenuAction::StartNewGame);

    proof {
        reveal(main_menu_tree);
        reveal(menu_button);
        assert(elements@ =~= old(elements)@ + main_menu_tree(old(elements)@.len()));
    }
}

/// Helper function to create a menu button
pub fn create_menu_button(
    elements: &mut Vec<Element>,
    parent: usize,
    text: &'static str,
    action: MenuAction,
)
    ensures
        final(elements)@ == old(elements)@ + menu_button(
            old(elements)@.len(),
            parent,
            text,
            action,
        ),
{
    let button: usize = spawn(
        elements,
        Element {
            screen: GameState::MainMenu,
            parent: Some(parent),
            widget: Widget::Button {
                style: Style {
                    width: Val::Px(300),
                    height: Val::Px(60),
                    column: false,
                    justify_center: true,
                    align_center: true,
                    row_gap: 0,
                    margin_top: 0,
                },
                background: MenuTheme::BUTTON_NORMAL,
            },
            marker: Marker::Button(MenuButton::new(action)),
        },
    );
    spawn(
        elements,
        Element {
            screen: GameState::MainMenu,
            parent: Some(button),
            widget: Widget::Text {
                content: text,
                font_size: MenuTheme::BUTTON_FONT_SIZE,
                color: MenuTheme::BUTTON_TEXT,
            },
            marker: Marker::Label(ButtonText),
        },
    );
    proof {
        reveal(menu_button);
        assert(elements@ =~= old(elements)@ + menu_button(
            old(elements)@.len(),
            parent,
            text,
            action,
        ));
    }
}

/// Cleanup main menu when transitioning to other states
pub fn cleanup_main_menu(elements: &mut Vec<Element>)
    ensures
        final(elements)@ == untagged(old(elements)@, GameState::MainMenu),
{
    despawn_screen(elements, GameState::MainMenu);
}

/// The buttons after their visual feedback, each as [`ButtonState::repainted`]
/// gives it.
pub open spec fn repainted(buttons: Seq<ButtonState>) -> Seq<ButtonState> {
    buttons.map_values(|button: ButtonState| button.repainted())
}

/// Handle button interactions (hover effects)
pub fn handle_button_interactions(buttons: &mut Vec<ButtonState>)
    ensures
        final(buttons)@ == repainted(old(buttons)@),
{
    let mut i: usize = 0;
    while i < buttons.len()
        invariant
            i <= buttons.len(),
            buttons@.len() == old(buttons)@.len(),
            forall|k: int| 0 <= k < i ==> #[trigger] buttons@[k] == old(buttons)@[k].repainted(),
            forall|k: int| i <= k < buttons@.len() ==> #[trigger] buttons@[k] == old(buttons)@[k],
        decreases buttons.len() - i,
    {
        let button: ButtonState = buttons[i];
        if button.changed {
            let background = MenuTheme::button_color(button.interaction);
            buttons.set(
                i,
                ButtonState {
                    interaction: button.interaction,
                    changed: button.changed,
                    button: button.button,
                    background,
                },
            );
        }
        i = i + 1;
    }
    proof {
        assert(buttons@ =~= repainted(old(buttons)@));
    }
}

/// The screen that a button asks for while `current` is shown: the button has
/// just become pressed, its action names a screen, and the move there is legal.
pub open spec fn requested_by(button: ButtonState, current: GameState) -> Option<GameState> {
    match button.spec_click() {
        ActionOutcome::Transition(target) => if spec_allowed(current, target) {
            Some(target)
        } else {
            None
        },
        _ => None,
    }
}

/// The buttons that ask for a screen while `current` is shown, in their order.
pub open spec fn requesting(buttons: Seq<ButtonState>, current: GameState) -> Seq<ButtonState> {
    buttons.filter(|button: ButtonState| requested_by(button, current) is Some)
}

/// The state after the presses among `buttons`: the last button that asks for
/// a screen decides which one is pending. Where none does, nothing changes.
pub open spec fn after_menu_actions(state: ScreenModel, buttons: Seq<ButtonState>) -> ScreenModel {
    let asking = requesting(buttons, state.current);
    if asking.len() == 0 {
        state
    } else {
        ScreenModel { pending: requested_by(asking.last(), state.current), ..state }
    }
}

/// The signals to end the process that the presses among `buttons` give: one
/// for each button that has just become pressed and whose action is to quit.
pub open spec fn exit_signals(buttons: Seq<ButtonState>) -> Seq<Effect> {
    Seq::new(
        buttons.filter(|button: ButtonState| button.spec_click() is Terminate).len(),
        |i: int| Effect::Terminate,
    )
}

/// Handle button clicks and trigger state changes
pub fn handle_menu_actions(
    buttons: &Vec<ButtonState>,
    state: &mut ScreenState,
    effects: &mut Vec<Effect>,
)
    requires
        old(state).wf(),
    ensures
        final(state).wf(),
        final(state)@ == after_menu_actions(old(state)@, buttons@),
        final(effects)@ == old(effects)@ + exit_signals(buttons@),
{
    let mut i: usize = 0;
    proof {
        assert(buttons@.subrange(0, 0) =~= Seq::<ButtonState>::empty());
        lemma_menu_actions_none(old(state)@);
        assert(effects@ =~= old(effects)@ + exit_signals(Seq::empty()));
    }
    while i < buttons.len()
        invariant
            i <= buttons.len(),
            state.wf(),
            state@ == after_menu_actions(old(state)@, buttons@.subrange(0, i as int)),
            effects@ == old(effects)@ + exit_signals(buttons@.subrange(0, i as int)),
        decreases buttons.len() - i,
    {
        let button: &ButtonState = &buttons[i];
        proof {
            let done = buttons@.subrange(0, i as int);
            lemma_menu_actions_step(old(state)@, done, *button);
            assert(done.push(*button) =~= buttons@.subrange(0, i + 1));
        }
        match button.click() {
            ActionOutcome::Transition(target) => {
                state.request(target);
            },
            ActionOutcome::Ignored => {},
            ActionOutcome::Terminate => {
                effects.push(Effect::Terminate);
            },
        }
        proof {
            assert(effects@ =~= old(effects)@ + exit_signals(buttons@.subrange(0, i + 1)));
        }
        i = i + 1;
    }
    proof {
        assert(buttons@.subrange(0, i as int) =~= buttons@);
    }
}

/// With no button, nothing changes and no signal to end the process is given.
pub proof fn lemma_menu_actions_none(state: ScreenModel)
    ensures
        after_menu_actions(state, Seq::empty()) == state,
        exit_signals(Seq::empty()) == Seq::<Effect>::empty(),
{
    reveal(Seq::filter);
    assert(exit_signals(Seq::empty()) =~= Seq::<Effect>::empty());
}

/// Resolving one more button after others comes to this: where it has just
/// become pressed and its action names a screen, that screen is requested, as
/// by [`ScreenModel::request`]; where its action is to quit, one more signal
/// to end the process is given; otherwise nothing changes.
pub proof fn lemma_menu_actions_step(
    state: ScreenModel,
    buttons: Seq<ButtonState>,
    next: ButtonState,
)
    ensures
        after_menu_actions(state, buttons.push(next)) == (match next.spec_click() {
            ActionOutcome::Transition(target) => after_menu_actions(state, buttons).request(target),
            _ => after_menu_actions(state, buttons),
        }),
        exit_signals(buttons.push(next)) == (if next.spec_click() is Terminate {
            exit_signals(buttons).push(Effect::Terminate)
        } else {
            exit_signals(buttons)
        }),
{
    reveal(Seq::filter);
    assert(buttons.push(next).drop_last() =~= buttons);
    if next.spec_click() is Terminate {
        assert(exit_signals(buttons.push(next)) =~= exit_signals(buttons).push(Effect::Terminate));
    }
}

/// A new background changes neither what a button asks for nor whether it
/// tells the process to end.
pub proof fn lemma_repaint_keeps_actions(state: ScreenModel, buttons: Seq<ButtonState>)
    ensures
        after_menu_actions(state, repainted(buttons)) == after_menu_actions(state, buttons),
        exit_signals(repainted(buttons)) == exit_signals(buttons),
    decreases buttons.len(),
{
    if buttons.len() == 0 {
        assert(repainted(buttons) =~= buttons);
    } else {
        let front = buttons.drop_last();
        let last = buttons.last();
        lemma_repaint_keeps_actions(state, front);
        lemma_menu_actions_step(state, front, last);
        lemma_menu_actions_step(state, repainted(front), last.repainted());
        assert(front.push(last) =~= buttons);
        assert(repainted(front).push(last.repainted()) =~= repainted(buttons));
    }
}

/// The state after the back key was read: where it has just been pressed, a
/// move to the main menu is requested. The request is taken on the new
/// worldkeeper screen and in the game, and dropped everywhere else.
pub open spec fn after_escape(state: ScreenModel, escape_just_pressed: bool) -> ScreenModel {
    if escape_just_pressed {
        state.request(GameState::MainMenu)
    } else {
        state
    }
}

/// Handle escape key to return to main menu from other states
pub fn handle_escape_to_menu(escape_just_pressed: bool, state: &mut ScreenState)
    requires
        old(state).wf(),
    ensures
        final(state).wf(),
        final(state)@ == after_escape(old(state)@, escape_just_pressed),
        final(state)@.current == old(state)@.current,
        final(state)@.elements == old(state)@.elements,
        final(state)@.pending == (if escape_just_pressed && (old(state)@.current
            == GameState::InGame || old(state)@.current == GameState::NewWorldkeeper) {
            Some(GameState::MainMenu)
        } else {
            old(state)@.pending
        }),
{
    proof {
        lemma_ways_back_to_menu(state@.current);
    }
    if escape_just_pressed {
        match state.current() {
            GameState::InGame | GameState::NewWorldkeeper => {
                state.request(GameState::MainMenu);
            },
            _ => {},
        }
    }
}

/// The parent of each of the menu's nine elements, by position: the camera
/// and the root have none, the root holds the title, the subtitle and the
/// button column, the column holds the buttons, and each button its caption.
pub open spec fn main_menu_parent(base: nat, position: int) -> Option<usize> {
    if position == 0 || position == 1 {
        None
    } else if position == 2 || position == 3 || position == 4 {
        Some((base + 1) as usize)
    } else if position == 5 || position == 7 {
        Some((base + 4) as usize)
    } else if position == 6 {
        Some((base + 5) as usize)
    } else {
        Some((base + 7) as usize)
    }
}

/// The main menu has nine elements and owns each of them; each stands under
/// the parent that its position gives; the root, the button column and the
/// buttons are containers; and the only buttons are the two that open the new
/// worldkeeper screen and start the game.
pub proof fn lemma_main_menu_tree_shape(base: nat)
    ensures
        main_menu_tree(base).len() == 9,
        owned_by(main_menu_tree(base), GameState::MainMenu),
        forall|i: int|
            0 <= i < 9 ==> (#[trigger] main_menu_tree(base)[i]).parent == main_menu_parent(base, i),
        main_menu_tree(base)[1].is_container(),
        main_menu_tree(base)[4].is_container(),
        main_menu_tree(base)[5].is_container(),
        main_menu_tree(base)[7].is_container(),
        forall|i: int|
            0 <= i < 9 ==> ((#[trigger] main_menu_tree(base)[i]).is_button() <==> (i == 5 || i
                == 7)),
        main_menu_tree(base)[5].marker == Marker::Button(
            MenuButton { action: MenuAction::NewWorldkeeper },
        ),
        main_menu_tree(base)[7].marker == Marker::Button(
            MenuButton { action: MenuAction::StartNewGame },
        ),
{
    reveal(main_menu_tree);
    reveal(menu_button);
    let tree = main_menu_tree(base);
    let first = menu_button(
        base + 5,
        (base + 4) as usize,
        "New Worldkeeper",
        MenuAction::NewWorldkeeper,
    );
    let second = menu_button(
        base + 7,
        (base + 4) as usize,
        "Start New Game",
        MenuAction::StartNewGame,
    );
    assert(first.len() == 2);
    assert(second.len() == 2);
    assert(tree.len() == 9);
    assert(tree[5] == first[0]);
    assert(tree[6] == first[1]);
    assert(tree[7] == second[0]);
    assert(tree[8] == second[1]);
}

/// Built where no more elements stand than the machine can index, the main
/// menu forms trees within itself.
pub proof fn lemma_main_menu_tree_linked(base: nat)
    requires
        base + 9 <= usize::MAX,
    ensures
        linked_from(main_menu_tree(base), base),
{
    let tree = main_menu_tree(base);
    lemma_main_menu_tree_shape(base);
    assert forall|i: int| 0 <= i < tree.len() implies ((#[trigger] tree[i]).parent matches Some(p)
        ==> base <= p < base + i && tree[p - base].is_container() && tree[p - base].screen
        == tree[i].screen) by {
        assert(tree[i].parent == main_menu_parent(base, i));
        assert(tree[1].is_container());
        assert(tree[4].is_container());
        assert(tree[5].is_container());
        assert(tree[7].is_container());
    }
}

} // verus!
