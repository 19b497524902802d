use vstd::prelude::*;

use crate::state::AppState;

verus! {

/// The three buttons of the main menu.
#[derive(Clone, Copy, Debug, PartialEq, Eq, Hash, Structural)]
pub enum ButtonKind {
    Play,
    Settings,
    Quit,
}

/// What the pointer is doing to a button, as the UI reports it.
#[derive(Clone, Copy, Debug, PartialEq, Eq, Hash, Structural)]
pub enum Interaction {
    Idle,
    Hovered,
    Clicked,
}

/// The colours a menu button can take.
#[derive(Clone, Copy, Debug, PartialEq, Eq, Hash, Structural)]
pub enum MenuColor {
    White,
    DarkGreen,
    Green,
    Yellow,
}

/// The colour of a button that nothing points at: white in the plain menu,
/// dark green in the augmented one.
#[derive(Clone, Copy, Debug, PartialEq, Eq, Hash, Structural)]
pub enum IdleStyle {
    Plain,
    Augmented,
}

/// What a click on a button asks for.
#[derive(Clone, Copy, Debug, PartialEq, Eq, Hash, Structural)]
pub enum ClickAction {
    /// Ask the process to exit.
    Exit,
    /// The button has no behaviour yet: nothing happens.
    Unimplemented,
}

/// The colour a button shows under an interaction: a function of the
/// interaction and the menu's idle style alone.
pub open spec fn color_for(style: IdleStyle, i: Interaction) -> MenuColor {
    match i {
        Interaction::Idle => match style {
            IdleStyle::Plain => MenuColor::White,
            IdleStyle::Augmented => MenuColor::DarkGreen,
        },
        Interaction::Hovered => MenuColor::Green,
        Interaction::Clicked => MenuColor::Yellow,
    }
}

pub open spec fn action_for(kind: ButtonKind) -> ClickAction {
    match kind {
        ButtonKind::Quit => ClickAction::Exit,
        _ => ClickAction::Unimplemented,
    }
}

/// Where a button stands in the menu, top first.
pub open spec fn slot(kind: ButtonKind) -> int {
    match kind {
        ButtonKind::Play => 0,
        ButtonKind::Settings => 1,
        ButtonKind::Quit => 2,
    }
}

/// The buttons of the menu, top first.
pub open spec fn menu_layout() -> Seq<ButtonKind> {
    seq![ButtonKind::Play, ButtonKind::Settings, ButtonKind::Quit]
}

pub open spec fn label_for(kind: ButtonKind) -> Seq<char> {
    match kind {
        ButtonKind::Play => seq!['P', 'L', 'A', 'Y'],
        ButtonKind::Settings => seq!['S', 'e', 't', 't', 'i', 'n', 'g', 's'],
        ButtonKind::Quit => seq!['Q', 'u', 'i', 't'],
    }
}

/// The colour of a button under an interaction.
pub fn button_color(style: IdleStyle, i: Interaction) -> (r: MenuColor)
    ensures
        r == color_for(style, i),
{
    match i {
        Interaction::Idle => match style {
            IdleStyle::Plain => MenuColor::White,
            IdleStyle::Augmented => MenuColor::DarkGreen,
        },
        Interaction::Hovered => MenuColor::Green,
        Interaction::Clicked => MenuColor::Yellow,
    }
}

/// The buttons of the menu, top first.
pub fn menu_buttons() -> (r: Vec<ButtonKind>)
    ensures
        r@ == menu_layout(),
{
    let mut v: Vec<ButtonKind> = Vec::new();
    v.push(ButtonKind::Play);
    v.push(ButtonKind::Settings);
    v.push(ButtonKind::Quit);
    assert(v@ =~= menu_layout());
    v
}

impl ButtonKind {
    /// What a click on this button asks for: only Quit does anything.
    pub fn click_action(&self) -> (r: ClickAction)
        ensures
            r == action_for(*self),
    {
        match self {
            ButtonKind::Quit => ClickAction::Exit,
            _ => ClickAction::Unimplemented,
        }
    }

    /// Where the button stands in the menu, top first.
    pub fn slot(&self) -> (r: usize)
        ensures
            r as int == slot(*self),
            r < 3,
    {
        match self {
            ButtonKind::Play => 0,
            ButtonKind::Settings => 1,
            ButtonKind::Quit => 2,
        }
    }

    /// The text shown on the button.
    pub fn label(&self) -> (r: String)
        ensures
            r@ == label_for(*self),
    {
        let s: &str = match self {
            ButtonKind::Play => "PLAY",
            ButtonKind::Settings => "Settings",
            ButtonKind::Quit => "Quit",
        };
        proof {
            reveal_strlit("PLAY");
            reveal_strlit("Settings");
            reveal_strlit("Quit");
        }
        let r = s.to_string();
        assert(r@ =~= label_for(*self));
        r
    }
}

/// The main menu as a unit of the application: its systems spawn the menu on
/// entering MainMenu, and recolour and handle its buttons while it is shown.
#[derive(Clone, Copy, Debug, PartialEq, Eq, Structural)]
pub struct MainMenuPlugin;

impl MainMenuPlugin {
    /// Whether the menu's per-frame systems run in a state.
    pub fn runs_in(&self, s: AppState) -> (r: bool)
        ensures
            r == (s is MainMenu),
    {
        match s {
            AppState::MainMenu => true,
            _ => false,
        }
    }
}

} // verus!
