use crate::components::element::{
    count_tagged, despawn_screen, lemma_despawn_of_owned, owned_by, tagged, untagged, Element,
};
use crate::components::ui::ButtonState;
use crate::plugins::menu_plugin::{
    lemma_new_worldkeeper_tree_shape, new_worldkeeper_tree, MenuPlugin, NewWorldkeeperPlugin,
};
use crate::resources::game_state::GameState;
use crate::resources::reachable::lemma_no_stale_elements;
use crate::resources::registry::{allowed, spec_allowed};
use crate::systems::menu::{
    after_escape, after_menu_actions, exit_signals, handle_escape_to_menu,
    lemma_main_menu_tree_shape, main_menu_tree, repainted,
};
use vstd::prelude::*;

verus! {

/// What the host program is told to carry out, in the order given.
#[derive(Debug, Clone, Copy, PartialEq, Eq)]
pub enum Effect {
    /// The screen was left and its elements are gone: release what was shown
    /// for it. On leaving the game, the game world is to be torn down.
    Exit(GameState),
    /// The screen was entered and its elements exist: show them. On entering
    /// the game, the game world is to be set up.
    Enter(GameState),
    /// The process is to end, with success.
    Terminate,
}

/// The elements that entering `screen` creates where `base` elements exist
/// already. The game, the pause and the game-over screen create none here.
pub open spec fn screen_tree(screen: GameState, base: nat) -> Seq<Element> {
    match screen {
        GameState::MainMenu => main_menu_tree(base),
        GameState::NewWorldkeeper => new_worldkeeper_tree(base),
        _ => Seq::empty(),
    }
}

/// The navigation state as a mathematical value.
pub struct ScreenModel {
    /// The one screen that is shown.
    pub current: GameState,
    /// The screen to move to at the next application point, if any.
    pub pending: Option<GameState>,
    /// The elements that exist.
    pub elements: Seq<Element>,
}

impl ScreenModel {
    /// The state at startup: the main menu is shown and nothing is requested.
    pub open spec fn initial() -> ScreenModel {
        ScreenModel {
            current: GameState::MainMenu,
            pending: None,
            elements: screen_tree(GameState::MainMenu, 0),
        }
    }

    /// The elements that exist are those that entering the current screen
    /// created, and a pending move is a legal one.
    pub open spec fn wf(self) -> bool {
        &&& self.elements == screen_tree(self.current, 0)
        &&& (self.pending matches Some(target) ==> spec_allowed(self.current, target))
    }

    /// The state after a request: a legal target becomes the pending one, in
    /// place of an earlier one; any other target changes nothing.
    pub open spec fn request(self, target: GameState) -> ScreenModel {
        if spec_allowed(self.current, target) {
            ScreenModel { pending: Some(target), ..self }
        } else {
            self
        }
    }

    /// The state after the application point: the pending screen, if there is
    /// one, is current, its elements are the ones that exist, and nothing is
    /// pending.
    pub open spec fn apply_pending(self) -> ScreenModel {
        match self.pending {
            Some(target) => ScreenModel {
                current: target,
                pending: None,
                elements: screen_tree(target, 0),
            },
            None => self,
        }
    }

    /// What the application point tells the host: for a pending move, that
    /// the current screen was left and then that the target was entered.
    pub open spec fn transition_effects(self) -> Seq<Effect> {
        match self.pending {
            Some(target) => seq![Effect::Exit(self.current), Effect::Enter(target)],
            None => Seq::empty(),
        }
    }

    /// The state after the input of one tick was dispatched. Only the
    /// handlers of the current screen run: on the main menu the presses are
    /// resolved and then the back key is read; on the new worldkeeper screen
    /// and in the game the back key is read; elsewhere nothing is read, so
    /// buttons of a screen that is not current never act.
    pub open spec fn dispatch(
        self,
        escape_just_pressed: bool,
        buttons: Seq<ButtonState>,
    ) -> ScreenModel {
        match self.current {
            GameState::MainMenu => after_escape(
                after_menu_actions(self, buttons),
                escape_just_pressed,
            ),
            GameState::NewWorldkeeper | GameState::InGame => after_escape(
                self,
                escape_just_pressed,
            ),
            GameState::Paused | GameState::GameOver => self,
        }
    }

    /// The state after one tick: the input is dispatched, then the pending
    /// move is applied.
    pub open spec fn tick(self, escape_just_pressed: bool, buttons: Seq<ButtonState>) -> ScreenModel {
        self.dispatch(escape_just_pressed, buttons).apply_pending()
    }

    /// What one tick tells the host: first the signals to end the process
    /// that the presses on the main menu give, then the move.
    pub open spec fn tick_effects(
        self,
        escape_just_pressed: bool,
        buttons: Seq<ButtonState>,
    ) -> Seq<Effect> {
        let signals = if self.current == GameState::MainMenu {
            exit_signals(buttons)
        } else {
            Seq::empty()
        };
        signals + self.dispatch(escape_just_pressed, buttons).transition_effects()
    }
}

/// Runs what belongs to entering `screen`: its builder adds its elements.
pub fn enter_screen(elements: &mut Vec<Element>, screen: GameState)
    ensures
        final(elements)@ == old(elements)@ + screen_tree(screen, old(elements)@.len()),
{
    match screen {
        GameState::MainMenu => MenuPlugin.on_enter(elements),
        GameState::NewWorldkeeper => NewWorldkeeperPlugin.on_enter(elements),
        GameState::InGame | GameState::Paused | GameState::GameOver => {
            assert(elements@ =~= elements@ + Seq::<Element>::empty());
        },
    }
}

/// Runs what belongs to leaving `screen`: every element that it owns is
/// destroyed, its camera included. Elements of other screens stay.
pub fn exit_screen(elements: &mut Vec<Element>, screen: GameState)
    ensures
        final(elements)@ == untagged(old(elements)@, screen),
{
    match screen {
        GameState::MainMenu => MenuPlugin.on_exit(elements),
        GameState::NewWorldkeeper => NewWorldkeeperPlugin.on_exit(elements),
        GameState::InGame | GameState::Paused | GameState::GameOver => despawn_screen(
            elements,
            screen,
        ),
    }
}

/// The owner of the current screen and of the requested next one. It alone
/// changes them.
pub struct ScreenState {
    current: GameState,
    pending: Option<GameState>,
    elements: Vec<Element>,
}

impl View for ScreenState {
    type V = ScreenModel;

    closed spec fn view(&self) -> ScreenModel {
        ScreenModel { current: self.current, pending: self.pending, elements: self.elements@ }
    }
}

impl ScreenState {
    /// The invariant of the state; see [`ScreenModel::wf`].
    pub open spec fn wf(&self) -> bool {
        self@.wf()
    }

    /// The state at startup: the main menu is current and built, and nothing
    /// is pending.
    pub fn new() -> (state: Self)
        ensures
            state.wf(),
            state@ == ScreenModel::initial(),
    {
        let mut elements: Vec<Element> = Vec::new();
        enter_screen(&mut elements, GameState::MainMenu);
        assert(elements@ =~= screen_tree(GameState::MainMenu, 0));
        ScreenState { current: GameState::MainMenu, pending: None, elements }
    }

    /// The screen that is shown.
    pub fn current(&self) -> (screen: GameState)
        ensures
            screen == self@.current,
    {
        self.current
    }

    /// The screen that the next application point moves to, if any.
    pub fn pending(&self) -> (target: Option<GameState>)
        ensures
            target == self@.pending,
    {
        self.pending
    }

    /// The elements that exist, in the order of their creation.
    pub fn elements(&self) -> (elements: &Vec<Element>)
        ensures
            elements@ == self@.elements,
    {
        &self.elements
    }

    /// The number of elements that exist and that `screen` owns.
    pub fn count_elements(&self, screen: GameState) -> (count: usize)
        ensures
            count == tagged(self@.elements, screen).len(),
    {
        count_tagged(&self.elements, screen)
    }

    /// Asks for a move to `target`. A legal target is recorded as pending and
    /// replaces an earlier one; any other is dropped and nothing changes.
    /// Returns whether the target was recorded.
    pub fn request(&mut self, target: GameState) -> (accepted: bool)
        requires
            old(self).wf(),
        ensures
            final(self).wf(),
            final(self)@ == old(self)@.request(target),
            accepted == spec_allowed(old(self)@.current, target),
    {
        if allowed(self.current, target) {
            self.pending = Some(target);
            true
        } else {
            false
        }
    }

    /// The application point of a tick. With nothing pending, nothing
    /// changes. Otherwise the current screen is left and all its elements are
    /// destroyed; only then the target becomes current and is entered, which
    /// builds its elements; and nothing is pending any more.
    pub fn apply_pending(&mut self) -> (effects: Vec<Effect>)
        requires
            old(self).wf(),
        ensures
            final(self).wf(),
            final(self)@ == old(self)@.apply_pending(),
            effects@ == old(self)@.transition_effects(),
            final(self)@.live_screens() == set![final(self)@.current],
            forall|screen: GameState|
                screen != final(self)@.current ==> #[trigger] tagged(
                    final(self)@.elements,
                    screen,
                ).len() == 0,
    {
        let mut effects: Vec<Effect> = Vec::new();
        proof {
            lemma_no_stale_elements(self@.apply_pending());
        }
        if let Some(target) = self.pending {
            let left: GameState = self.current;
            proof {
                lemma_screen_tree_shape(left, 0);
                lemma_despawn_of_owned(self.elements@, left, left);
            }
            exit_screen(&mut self.elements, left);
            effects.push(Effect::Exit(left));
            assert(self.elements@ =~= Seq::<Element>::empty());
            self.current = target;
            enter_screen(&mut self.elements, target);
            effects.push(Effect::Enter(target));
            self.pending = None;
            proof {
                assert(self.elements@ =~= screen_tree(target, 0));
                assert(effects@ =~= old(self)@.transition_effects());
            }
        }
        effects
    }

    /// One tick. The handlers of the current screen read the input: the menu
    /// buttons as they stand, and whether the back key has just been pressed.
    /// Then the pending move, if any, is applied. Requests made in this tick
    /// are applied in this tick, and at most one move is made. On the main
    /// menu the buttons whose interaction has changed get their backgrounds;
    /// on any other screen the buttons are left as they are and none acts.
    pub fn tick(&mut self, escape_just_pressed: bool, buttons: &mut Vec<ButtonState>) -> (effects:
        Vec<Effect>)
        requires
            old(self).wf(),
        ensures
            final(self).wf(),
            final(self)@ == old(self)@.tick(escape_just_pressed, old(buttons)@),
            effects@ == old(self)@.tick_effects(escape_just_pressed, old(buttons)@),
            final(buttons)@ == (if old(self)@.current == GameState::MainMenu {
                repainted(old(buttons)@)
            } else {
                old(buttons)@
            }),
    {
        let mut effects: Vec<Effect> = Vec::new();
        match self.current {
            GameState::MainMenu => MenuPlugin.update(
                buttons,
                escape_just_pressed,
                self,
                &mut effects,
            ),
            GameState::NewWorldkeeper => NewWorldkeeperPlugin.update(escape_just_pressed, self),
            GameState::InGame => handle_escape_to_menu(escape_just_pressed, self),
            GameState::Paused | GameState::GameOver => {},
        }
        let mut moved: Vec<Effect> = self.apply_pending();
        effects.append(&mut moved);
        effects
    }
}

/// A screen owns each element that entering it creates.
pub proof fn lemma_screen_tree_shape(screen: GameState, base: nat)
    ensures
        owned_by(screen_tree(screen, base), screen),
        screen_tree(screen, base).len() == (match screen {
            GameState::MainMenu => 9nat,
            GameState::NewWorldkeeper => 4nat,
            _ => 0nat,
        }),
{
    lemma_main_menu_tree_shape(base);
    lemma_new_worldkeeper_tree_shape(base);
}

} // verus!
