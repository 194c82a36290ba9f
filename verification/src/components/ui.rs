use crate::resources::game_state::GameState;
use vstd::prelude::*;

verus! {

/// Marker component for the main menu UI
#[derive(Debug, Clone, Copy, PartialEq, Eq)]
pub struct MainMenu;

/// Marker component for the main menu title
#[derive(Debug, Clone, Copy, PartialEq, Eq)]
pub struct MenuTitle;

/// Component for menu buttons with their associated actions
#[derive(Debug, Clone, Copy, PartialEq, Eq)]
pub struct MenuButton {
    pub action: MenuAction,
}

/// Actions that can be triggered by menu buttons
#[derive(Debug, Clone, Copy, PartialEq, Eq)]
pub enum MenuAction {
    NewWorldkeeper,
    StartNewGame,
    Settings,
    Quit,
}

/// What a press on a button with a given action leads to.
#[derive(Debug, Clone, Copy, PartialEq, Eq)]
pub enum ActionOutcome {
    /// A move to the given screen is requested.
    Transition(GameState),
    /// The process is told to end with success. No screen is requested.
    Terminate,
    /// Nothing happens: the action has no screen of its own yet.
    Ignored,
}

impl MenuButton {
    pub fn new(action: MenuAction) -> (button: Self)
        ensures
            button.action == action,
    {
        Self { action }
    }
}

impl MenuAction {
    /// The table from actions to outcomes. It is total: every action has a row.
    pub open spec fn spec_outcome(&self) -> ActionOutcome {
        match self {
            MenuAction::NewWorldkeeper => ActionOutcome::Transition(GameState::NewWorldkeeper),
            MenuAction::StartNewGame => ActionOutcome::Transition(GameState::InGame),
            MenuAction::Settings => ActionOutcome::Ignored,
            MenuAction::Quit => ActionOutcome::Terminate,
        }
    }

    /// What a press on a button with this action leads to.
    #[verifier::when_used_as_spec(spec_outcome)]
    pub fn outcome(&self) -> (outcome: ActionOutcome)
        ensures
            outcome == self.spec_outcome(),
    {
        match self {
            MenuAction::NewWorldkeeper => ActionOutcome::Transition(GameState::NewWorldkeeper),
            MenuAction::StartNewGame => ActionOutcome::Transition(GameState::InGame),
            MenuAction::Settings => ActionOutcome::Ignored,
            MenuAction::Quit => ActionOutcome::Terminate,
        }
    }
}

/// Component for button text
#[derive(Debug, Clone, Copy, PartialEq, Eq)]
pub struct ButtonText;

/// How the pointer stands to a button.
#[derive(Debug, Clone, Copy, PartialEq, Eq)]
pub enum Interaction {
    /// The pointer is over the button and its key is down.
    Pressed,
    /// The pointer is over the button.
    Hovered,
    /// The pointer is elsewhere.
    Idle,
}

/// An sRGB colour: red, green and blue, each in hundredths of full intensity.
pub type Color = (u8, u8, u8);

/// A menu button as a tick finds it.
#[derive(Debug, Clone, Copy, PartialEq, Eq)]
pub struct ButtonState {
    /// How the pointer stands to the button now.
    pub interaction: Interaction,
    /// Whether the interaction is another than in the tick before.
    pub changed: bool,
    pub button: MenuButton,
    /// The background that the button shows.
    pub background: Color,
}

impl ButtonState {
    /// What the button leads to in this tick: the outcome of its action where
    /// the button has just become pressed, and nothing otherwise. A button
    /// that is held down acts once, in the tick in which it went down.
    pub open spec fn spec_click(&self) -> ActionOutcome {
        if self.changed && self.interaction is Pressed {
            self.button.action.spec_outcome()
        } else {
            ActionOutcome::Ignored
        }
    }

    /// What the button leads to in this tick.
    #[verifier::when_used_as_spec(spec_click)]
    pub fn click(&self) -> (outcome: ActionOutcome)
        ensures
            outcome == self.spec_click(),
    {
        match self.interaction {
            Interaction::Pressed => if self.changed {
                self.button.action.outcome()
            } else {
                ActionOutcome::Ignored
            },
            _ => ActionOutcome::Ignored,
        }
    }

    /// The button after its visual feedback: where the interaction has
    /// changed, the background is the one that the interaction calls for;
    /// where it has not, nothing is written.
    pub open spec fn repainted(self) -> ButtonState {
        if self.changed {
            ButtonState { background: MenuTheme::spec_button_color(self.interaction), ..self }
        } else {
            self
        }
    }
}

/// UI style constants for consistent theming
pub struct MenuTheme;

impl MenuTheme {
    pub const BACKGROUND_COLOR: Color = (10, 10, 10);

    pub const TITLE_COLOR: Color = (90, 90, 90);

    pub const BUTTON_NORMAL: Color = (15, 15, 15);

    pub const BUTTON_HOVERED: Color = (25, 25, 25);

    pub const BUTTON_PRESSED: Color = (35, 25, 35);

    pub const BUTTON_TEXT: Color = (90, 90, 90);

    pub const TITLE_FONT_SIZE: u32 = 64;

    pub const BUTTON_FONT_SIZE: u32 = 32;

    /// The background of a button by how the pointer stands to it: the base
    /// colour when idle, the highlight when hovered, the accent when pressed.
    pub open spec fn spec_button_color(interaction: Interaction) -> Color {
        match interaction {
            Interaction::Pressed => MenuTheme::BUTTON_PRESSED,
            Interaction::Hovered => MenuTheme::BUTTON_HOVERED,
            Interaction::Idle => MenuTheme::BUTTON_NORMAL,
        }
    }

    /// The background that a button shows under the given interaction.
    #[verifier::when_used_as_spec(spec_button_color)]
    pub fn button_color(interaction: Interaction) -> (color: Color)
        ensures
            color == MenuTheme::spec_button_color(interaction),
    {
        match interaction {
            Interaction::Pressed => MenuTheme::BUTTON_PRESSED,
            Interaction::Hovered => MenuTheme::BUTTON_HOVERED,
            Interaction::Idle => MenuTheme::BUTTON_NORMAL,
        }
    }
}

} // verus!
