use crate::components::element::{
    despawn_screen, linked_from, owned_by, spawn, untagged, Element, Marker, Style, Val, Widget,
};
use crate::components::ui::ButtonState;
use crate::resources::game_state::GameState;
use crate::resources::screen_state::{Effect, ScreenState};
use crate::systems::menu::{
    after_escape, after_menu_actions, cleanup_main_menu, exit_signals, handle_button_interactions,
    handle_escape_to_menu, handle_menu_actions, lemma_repaint_keeps_actions, main_menu_tree,
    repainted, setup_main_menu,
};
use vstd::prelude::*;

verus! {

/// Plugin for managing the main menu and UI interactions
pub struct MenuPlugin;

impl MenuPlugin {
    /// Runs when entering the main menu: the menu is built.
    pub fn on_enter(&self, elements: &mut Vec<Element>)
        ensures
            final(elements)@ == old(elements)@ + main_menu_tree(old(elements)@.len()),
    {
        setup_main_menu(elements);
    }

    /// Runs in each tick while the main menu is current: the buttons whose
    /// interaction has changed get their background, the new presses are
    /// resolved, and the back key is read.
    pub fn update(
        &self,
        buttons: &mut Vec<ButtonState>,
        escape_just_pressed: bool,
        state: &mut ScreenState,
        effects: &mut Vec<Effect>,
    )
        requires
            old(state).wf(),
        ensures
            final(state).wf(),
            final(buttons)@ == repainted(old(buttons)@),
            final(state)@ == after_escape(
                after_menu_actions(old(state)@, old(buttons)@),
                escape_just_pressed,
            ),
            final(effects)@ == old(effects)@ + exit_signals(old(buttons)@),
    {
        proof {
            lemma_repaint_keeps_actions(state@, buttons@);
        }
        handle_button_interactions(buttons);
        handle_menu_actions(buttons, state, effects);
        handle_escape_to_menu(escape_just_pressed, state);
    }

    /// Runs when leaving the main menu: the menu is torn down.
    pub fn on_exit(&self, elements: &mut Vec<Element>)
        ensures
            final(elements)@ == untagged(old(elements)@, GameState::MainMenu),
    {
        cleanup_main_menu(elements);
    }
}

/// Plugin for handling the "New Worldkeeper" screen
pub struct NewWorldkeeperPlugin;

impl NewWorldkeeperPlugin {
    /// Runs when entering the new worldkeeper screen: the screen is built.
    pub fn on_enter(&self, elements: &mut Vec<Element>)
        ensures
            final(elements)@ == old(elements)@ + new_worldkeeper_tree(old(elements)@.len()),
    {
        setup_new_worldkeeper_screen(elements);
    }

    /// Runs in each tick while the new worldkeeper screen is current: the
    /// back key is read.
    pub fn update(&self, escape_just_pressed: bool, state: &mut ScreenState)
        requires
            old(state).wf(),
        ensures
            final(state).wf(),
            final(state)@ == after_escape(old(state)@, escape_just_pressed),
    {
        handle_escape_to_menu(escape_just_pressed, state);
    }

    /// Runs when leaving the new worldkeeper screen: the screen is torn down.
    pub fn on_exit(&self, elements: &mut Vec<Element>)
        ensures
            final(elements)@ == untagged(old(elements)@, GameState::NewWorldkeeper),
    {
        cleanup_new_worldkeeper_screen(elements);
    }
}

/// The layout of the screen's root: it fills the window and stacks its two
/// lines in the centre.
pub open spec fn spec_screen_style() -> Style {
    Style {
        width: Val::Percent(100),
        height: Val::Percent(100),
        column: true,
        justify_center: true,
        align_center: true,
        row_gap: 0,
        margin_top: 0,
    }
}

/// The new worldkeeper screen, built where `base` elements exist already: a
/// camera, and a root that holds a heading and a hint on how to leave.
#[verifier::opaque]
pub open spec fn new_worldkeeper_tree(base: nat) -> Seq<Element> {
    seq![
        Element {
            screen: GameState::NewWorldkeeper,
            parent: None,
            widget: Widget::Camera,
            marker: Marker::Unmarked,
        },
        Element {
            screen: GameState::NewWorldkeeper,
            parent: None,
            widget: Widget::Node { style: spec_screen_style(), backdrop: Some((10, 20, 10)) },
            marker: Marker::Unmarked,
        },
        Element {
            screen: GameState::NewWorldkeeper,
            parent: Some((base + 1) as usize),
            widget: Widget::Text {
                content: "New Worldkeeper Screen",
                font_size: 48,
                color: (100, 100, 100),
            },
            marker: Marker::Unmarked,
        },
        Element {
            screen: GameState::NewWorldkeeper,
            parent: Some((base + 1) as usize),
            widget: Widget::Text {
                content: "Press ESC to return to main menu",
                font_size: 24,
                color: (80, 80, 80),
            },
            marker: Marker::Unmarked,
        },
    ]
}

/// Temporary setup for the New Worldkeeper screen
pub fn setup_new_worldkeeper_screen(elements: &mut Vec<Element>)
    ensures
        final(elements)@ == old(elements)@ + new_worldkeeper_tree(old(elements)@.len()),
{
    // Spawn a camera for UI rendering
    spawn(
        elements,
        Element {
            screen: GameState::NewWorldkeeper,
            parent: None,
            widget: Widget::Camera,
            marker: Marker::Unmarked,
        },
    );

    let root: usize = spawn(
        elements,
        Element {
            screen: GameState::NewWorldkeeper,
            parent: None,
            widget: Widget::Node {
                style: Style {
                    width: Val::Percent(100),
                    height: Val::Percent(100),
                    column: true,
                    justify_center: true,
                    align_center: true,
                    row_gap: 0,
                    margin_top: 0,
                },
                backdrop: Some((10, 20, 10)),
            },
            marker: Marker::Unmarked,
        },
    );

    spawn(
        elements,
        Element {
            screen: GameState::NewWorldkeeper,
            parent: Some(root),
            widget: Widget::Text {
                content: "New Worldkeeper Screen",
                font_size: 48,
                color: (100, 100, 100),
            },
            marker: Marker::Unmarked,
        },
    );

    spawn(
        elements,
        Element {
            screen: GameState::NewWorldkeeper,
            parent: Some(root),
            widget: Widget::Text {
                content: "Press ESC to return to main menu",
                font_size: 24,
                color: (80, 80, 80),
            },
            marker: Marker::Unmarked,
        },
    );

    proof {
        reveal(new_worldkeeper_tree);
        assert(elements@ =~= old(elements)@ + new_worldkeeper_tree(old(elements)@.len()));
    }
}

/// Cleanup New Worldkeeper screen
pub fn cleanup_new_worldkeeper_screen(elements: &mut Vec<Element>)
    ensures
        final(elements)@ == untagged(old(elements)@, GameState::NewWorldkeeper),
{
    despawn_screen(elements, GameState::NewWorldkeeper);
}

/// The new worldkeeper screen has four elements and owns each of them. The
/// camera and the root have no parent; the root is a container and holds the
/// two lines. None of them is a button.
pub proof fn lemma_new_worldkeeper_tree_shape(base: nat)
    ensures
        new_worldkeeper_tree(base).len() == 4,
        owned_by(new_worldkeeper_tree(base), GameState::NewWorldkeeper),
        new_worldkeeper_tree(base)[0].parent is None,
        new_worldkeeper_tree(base)[1].parent is None,
        new_worldkeeper_tree(base)[1].is_container(),
        new_worldkeeper_tree(base)[2].parent == Some((base + 1) as usize),
        new_worldkeeper_tree(base)[3].parent == Some((base + 1) as usize),
        forall|i: int| 0 <= i < 4 ==> !(#[trigger] new_worldkeeper_tree(base)[i]).is_button(),
{
    reveal(new_worldkeeper_tree);
}

/// Built where no more elements stand than the machine can index, the new
/// worldkeeper screen forms trees within itself.
pub proof fn lemma_new_worldkeeper_tree_linked(base: nat)
    requires
        base + 4 <= usize::MAX,
    ensures
        linked_from(new_worldkeeper_tree(base), base),
{
    let tree = new_worldkeeper_tree(base);
    lemma_new_worldkeeper_tree_shape(base);
    assert forall|i: int| 0 <= i < tree.len() implies ((#[trigger] tree[i]).parent matches Some(p)
        ==> base <= p < base + i && tree[p - base].is_container() && tree[p - base].screen
        == tree[i].screen) by {
        if i == 2 || i == 3 {
            assert(tree[i].parent == Some((base + 1) as usize));
            assert(tree[1].is_container());
        }
    }
}

} // verus!
