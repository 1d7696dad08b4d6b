//! The menu: what its buttons do, which page shows, and the audio switch.

use vstd::prelude::*;
use crate::game::GameState;

verus! {

/// A page of the menu.
#[derive(Clone, Copy, Debug, PartialEq, Eq, Structural)]
pub enum MenuPage {
    Main,
    Settings,
}

/// How the pointer stands to a button.
#[derive(Clone, Copy, Debug, PartialEq, Eq, Structural)]
pub enum Interaction {
    Pressed,
    Hovered,
    Away,
}

/// Whether sounds are played.
#[derive(Clone, Copy, Debug, PartialEq, Eq, Structural)]
pub enum AudioSettings {
    ON,
    OFF,
}

/// The shade of a button.
#[derive(Clone, Copy, Debug, PartialEq, Eq, Structural)]
pub enum ButtonShade {
    Pressed,
    Hovered,
    Idle,
}

/// What a pressed button asks for.
#[derive(Clone, Copy, Debug, PartialEq, Eq, Structural)]
pub enum ButtonAction {
    /// Move the program to another phase.
    Enter(GameState),
    /// Show another page of the menu.
    Show(MenuPage),
    /// Leave the program.
    Exit,
}

/// What the menu does about one button in one tick.
#[derive(Clone, Copy, Debug, PartialEq, Eq, Structural)]
pub struct ButtonResponse {
    pub shade: ButtonShade,
    pub action: Option<ButtonAction>,
    /// Whether the click sound is played.
    pub click: bool,
}

/// Whether a page shows.
#[derive(Clone, Copy, Debug, PartialEq, Eq, Structural)]
pub enum PageVisibility {
    Inherited,
    Hidden,
}

/// What the button with the given label asks for, if the menu has such a
/// button.
pub open spec fn action_of(label: Seq<char>) -> Option<ButtonAction> {
    if label == "New Game"@ || label == "Play"@ {
        Some(ButtonAction::Enter(GameState::Playing))
    } else if label == "Settings"@ {
        Some(ButtonAction::Show(MenuPage::Settings))
    } else if label == "Back"@ {
        Some(ButtonAction::Show(MenuPage::Main))
    } else if label == "Exit"@ {
        Some(ButtonAction::Exit)
    } else {
        None
    }
}

/// The response to a button: pressed, it darkens and acts; hovered, it
/// lightens, with a click if sounds are on; otherwise it is idle.
pub open spec fn response_to(interaction: Interaction, label: Seq<char>, audio: AudioSettings)
    -> ButtonResponse {
    match interaction {
        Interaction::Pressed => ButtonResponse {
            shade: ButtonShade::Pressed,
            action: action_of(label),
            click: false,
        },
        Interaction::Hovered => ButtonResponse {
            shade: ButtonShade::Hovered,
            action: None,
            click: audio == AudioSettings::ON,
        },
        Interaction::Away => ButtonResponse {
            shade: ButtonShade::Idle,
            action: None,
            click: false,
        },
    }
}

/// Equality of two strings (`str`'s `==`). Not proved: the answer is taken
/// to say whether the two hold the same characters.
#[verifier::external_body]
fn same_text(a: &str, b: &str) -> (same: bool)
    ensures
        same == (a@ == b@),
{
    a == b
}

/// What the button with the given label asks for; `None` for a label that
/// no button of the menu carries.
pub fn button_action(label: &str) -> (action: Option<ButtonAction>)
    ensures
        action == action_of(label@),
{
    if same_text(label, "New Game") || same_text(label, "Play") {
        Some(ButtonAction::Enter(GameState::Playing))
    } else if same_text(label, "Settings") {
        Some(ButtonAction::Show(MenuPage::Settings))
    } else if same_text(label, "Back") {
        Some(ButtonAction::Show(MenuPage::Main))
    } else if same_text(label, "Exit") {
        Some(ButtonAction::Exit)
    } else {
        None
    }
}

/// One button in one tick. The label of a pressed button must be one of the
/// menu's.
pub fn text_button_system(interaction: Interaction, label: &str, audio: AudioSettings) -> (response:
    ButtonResponse)
    requires
        interaction == Interaction::Pressed ==> action_of(label@).is_some(),
    ensures
        response == response_to(interaction, label@, audio),
        interaction == Interaction::Pressed ==> response.action.is_some(),
{
    match interaction {
        Interaction::Pressed => ButtonResponse {
            shade: ButtonShade::Pressed,
            action: button_action(label),
            click: false,
        },
        Interaction::Hovered => ButtonResponse {
            shade: ButtonShade::Hovered,
            action: None,
            click: audio == AudioSettings::ON,
        },
        Interaction::Away => ButtonResponse {
            shade: ButtonShade::Idle,
            action: None,
            click: false,
        },
    }
}

/// Whether a page shows while `current` is the page of the menu: that page
/// shows, every other is hidden.
pub fn change_menu(current: MenuPage, page: MenuPage) -> (visibility: PageVisibility)
    ensures
        visibility == if page == current {
            PageVisibility::Inherited
        } else {
            PageVisibility::Hidden
        },
{
    if page == current {
        PageVisibility::Inherited
    } else {
        PageVisibility::Hidden
    }
}

/// The audio setting after its checkbox met the pointer: a press flips it,
/// anything else leaves it.
pub fn audio_state(interaction: Interaction, audio: AudioSettings) -> (next: AudioSettings)
    ensures
        next == if interaction == Interaction::Pressed {
            match audio {
                AudioSettings::ON => AudioSettings::OFF,
                AudioSettings::OFF => AudioSettings::ON,
            }
        } else {
            audio
        },
{
    if interaction == Interaction::Pressed {
        match audio {
            AudioSettings::ON => AudioSettings::OFF,
            AudioSettings::OFF => AudioSettings::ON,
        }
    } else {
        audio
    }
}

} // verus!
