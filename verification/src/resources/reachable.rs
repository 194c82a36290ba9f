use crate::components::element::{
    lemma_despawn_of_owned, lemma_linked_append, linked, owned_by, tagged, Element,
};
use crate::components::ui::ButtonState;
use crate::plugins::menu_plugin::lemma_new_worldkeeper_tree_linked;
use crate::resources::game_state::GameState;
use crate::resources::registry::{follows_edges, spec_allowed};
use crate::resources::screen_state::{lemma_screen_tree_shape, screen_tree, Effect, ScreenModel};
use crate::systems::menu::{after_menu_actions, lemma_main_menu_tree_linked};
use vstd::prelude::*;

verus! {

impl ScreenModel {
    /// The screens that are alive: the current one, and every screen that
    /// owns an element that exists.
    pub open spec fn live_screens(self) -> Set<GameState> {
        Set::new(
            |screen: GameState|
                screen == self.current || exists|i: int|
                    0 <= i < self.elements.len() && (#[trigger] self.elements[i]).screen == screen,
        )
    }

    /// The state after each of `targets` in turn was requested and the
    /// request applied.
    pub open spec fn walk(self, targets: Seq<GameState>) -> ScreenModel
        decreases targets.len(),
    {
        if targets.len() == 0 {
            self
        } else {
            self.walk(targets.drop_last()).request(targets.last()).apply_pending()
        }
    }
}

/// The state at startup is well formed, and a request, the application point
/// and a whole tick each lead from a well-formed state to a well-formed one:
/// every state that can be reached is well formed.
pub proof fn lemma_steps_keep_wf(
    state: ScreenModel,
    target: GameState,
    escape_just_pressed: bool,
    buttons: Seq<ButtonState>,
)
    requires
        state.wf(),
    ensures
        ScreenModel::initial().wf(),
        state.request(target).wf(),
        state.apply_pending().wf(),
        state.dispatch(escape_just_pressed, buttons).wf(),
        state.tick(escape_just_pressed, buttons).wf(),
{
    let asked = after_menu_actions(state, buttons);
    assert(asked.wf());
}

/// In a well-formed state exactly one screen is alive, the current one. It
/// owns every element that exists, so the number of elements that any other
/// screen owns is zero; and the elements form trees.
pub proof fn lemma_one_screen_alive(state: ScreenModel, other: GameState)
    requires
        state.wf(),
    ensures
        state.live_screens() == set![state.current],
        owned_by(state.elements, state.current),
        tagged(state.elements, state.current) == state.elements,
        other != state.current ==> tagged(state.elements, other).len() == 0,
        linked(state.elements),
{
    lemma_screen_tree_shape(state.current, 0);
    lemma_despawn_of_owned(state.elements, state.current, other);
    assert(state.live_screens() =~= set![state.current]);
    let nothing = Seq::<Element>::empty();
    match state.current {
        GameState::MainMenu => lemma_main_menu_tree_linked(0),
        GameState::NewWorldkeeper => lemma_new_worldkeeper_tree_linked(0),
        _ => {},
    }
    lemma_linked_append(nothing, state.elements);
    assert(nothing + state.elements =~= state.elements);
}

/// In a well-formed state no screen but the current one owns an element, and
/// no screen but the current one is alive.
pub proof fn lemma_no_stale_elements(state: ScreenModel)
    requires
        state.wf(),
    ensures
        state.live_screens() == set![state.current],
        forall|screen: GameState|
            screen != state.current ==> #[trigger] tagged(state.elements, screen).len() == 0,
{
    assert forall|screen: GameState| screen != state.current implies #[trigger] tagged(
        state.elements,
        screen,
    ).len() == 0 by {
        lemma_one_screen_alive(state, screen);
    }
    lemma_one_screen_alive(state, state.current);
}

/// A tick makes at most one move, whatever was asked for in it: the host is
/// told either nothing, or that the screen that was current was left and then
/// that another was entered, which is one legal move away and is current
/// afterwards. Nothing is pending once the tick is over.
pub proof fn lemma_one_move_per_tick(
    state: ScreenModel,
    escape_just_pressed: bool,
    buttons: Seq<ButtonState>,
)
    requires
        state.wf(),
    ensures
        state.tick(escape_just_pressed, buttons).pending is None,
        ({
            let after = state.tick(escape_just_pressed, buttons);
            let moved = state.dispatch(escape_just_pressed, buttons).transition_effects();
            ||| moved == Seq::<Effect>::empty() && after.current == state.current
            ||| moved == seq![Effect::Exit(state.current), Effect::Enter(after.current)]
                && spec_allowed(state.current, after.current)
        }),
{
    let asked = after_menu_actions(state, buttons);
    assert(asked.wf());
}

/// With nothing pending, the application point changes nothing and tells the
/// host nothing. After an application point nothing is pending, so a second
/// one in a row changes nothing either.
pub proof fn lemma_apply_without_pending(state: ScreenModel)
    ensures
        state.pending is None ==> state.apply_pending() == state,
        state.pending is None ==> state.transition_effects() == Seq::<Effect>::empty(),
        state.apply_pending().pending is None,
        state.apply_pending().apply_pending() == state.apply_pending(),
{
}

/// Of two requests before one application point, the later one is applied,
/// provided that it is legal: the state is then as if the earlier one had
/// never been made, and the later target is current. A later request that is
/// not legal is dropped and leaves the earlier one pending.
pub proof fn lemma_last_request_wins(state: ScreenModel, first: GameState, second: GameState)
    ensures
        spec_allowed(state.current, second) ==> {
            &&& state.request(first).request(second) == state.request(second)
            &&& state.request(first).request(second).apply_pending().current == second
        },
        !spec_allowed(state.current, second) ==> state.request(first).request(second)
            == state.request(first),
{
}

/// A request for a screen that is not one legal move away changes nothing: the
/// current screen stays, and so does what was pending. No request, legal or
/// not, changes the current screen or the elements by itself.
pub proof fn lemma_illegal_request_is_dropped(state: ScreenModel, target: GameState)
    ensures
        !spec_allowed(state.current, target) ==> state.request(target) == state,
        state.request(target).current == state.current,
        state.request(target).elements == state.elements,
        state.pending is None && !spec_allowed(state.current, target) ==> state.request(
            target,
        ).apply_pending() == state,
{
}

/// One step of a walk from a state with nothing pending: a legal target is
/// current afterwards, any other leaves the current screen as it was.
pub proof fn lemma_walk_step(state: ScreenModel, target: GameState)
    requires
        state.wf(),
        state.pending is None,
    ensures
        state.request(target).apply_pending().wf(),
        state.request(target).apply_pending().pending is None,
        state.request(target).apply_pending().current == (if spec_allowed(state.current, target) {
            target
        } else {
            state.current
        }),
{
}

/// Whatever screens are requested in turn, each followed by an application
/// point, the state stays well formed with nothing pending, so exactly one
/// screen is alive after each application point; and the current screen only
/// ever changes along a legal move.
pub proof fn lemma_walk_keeps_wf(start: ScreenModel, targets: Seq<GameState>)
    requires
        start.wf(),
        start.pending is None,
    ensures
        start.walk(targets).wf(),
        start.walk(targets).pending is None,
        start.walk(targets).live_screens() == set![start.walk(targets).current],
        targets.len() > 0 ==> {
            let before = start.walk(targets.drop_last());
            let after = start.walk(targets);
            after.current == before.current || (after.current == targets.last() && spec_allowed(
                before.current,
                after.current,
            ))
        },
    decreases targets.len(),
{
    if targets.len() > 0 {
        lemma_walk_keeps_wf(start, targets.drop_last());
        lemma_walk_step(start.walk(targets.drop_last()), targets.last());
    }
    lemma_one_screen_alive(start.walk(targets), start.current);
}

/// Along a path of legal moves from the current screen every request is
/// taken: after each application point the screen just asked for is current,
/// it alone is alive, and nothing is pending.
pub proof fn lemma_walk_along_edges(start: ScreenModel, path: Seq<GameState>, steps: int)
    requires
        start.wf(),
        start.pending is None,
        follows_edges(seq![start.current] + path),
        0 <= steps <= path.len(),
    ensures
        start.walk(path.take(steps)).wf(),
        start.walk(path.take(steps)).pending is None,
        start.walk(path.take(steps)).current == (if steps == 0 {
            start.current
        } else {
            path[steps - 1]
        }),
        start.walk(path.take(steps)).live_screens() == set![start.walk(path.take(steps)).current],
    decreases steps,
{
    let whole = seq![start.current] + path;
    let done = path.take(steps);
    if steps > 0 {
        lemma_walk_along_edges(start, path, steps - 1);
        assert(done.drop_last() =~= path.take(steps - 1));
        assert(done.last() == path[steps - 1]);
        let before = start.walk(path.take(steps - 1));
        assert(whole[steps] == path[steps - 1]);
        if steps == 1 {
            assert(whole[0] == start.current);
        } else {
            assert(whole[steps - 1] == path[steps - 2]);
        }
        assert(spec_allowed(before.current, path[steps - 1]));
        lemma_walk_step(before, path[steps - 1]);
    }
    lemma_walk_keeps_wf(start, done);
}

} // verus!
