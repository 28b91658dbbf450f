//! What the embedding program reports to the reader each frame, and what
//! the reader tells it to show.

use vstd::prelude::*;

verus! {

/// The two screens of the reader.
#[derive(Clone, Copy, PartialEq, Eq, Debug, Structural)]
pub enum Screen {
    /// The dialog that asks for the API key.
    KeyEntry,
    /// Top bar, article list and footer.
    Main,
}

/// What a frame is to look like, decided before anything is drawn.
#[derive(Clone, Copy, PartialEq, Eq, Debug, Structural)]
pub struct FramePlan {
    /// Whether the dark visuals apply to this frame.
    pub dark_visuals: bool,
    /// The screen to draw.
    pub screen: Screen,
    /// Whether the custom fonts are to be set up again in this frame.
    pub configure_fonts: bool,
    /// Whether another frame is to be scheduled right after this one.
    pub repaint: bool,
}

/// What the top bar's buttons reported in one frame.
#[derive(Clone, Copy, PartialEq, Eq, Debug, Structural)]
pub struct TopPanelInput {
    pub close_clicked: bool,
    pub refresh_clicked: bool,
    pub theme_clicked: bool,
}

/// Mathematical value of a [`ConfigInput`].
#[verifier::ext_equal]
pub struct ConfigInputView {
    pub api_key: Seq<char>,
    pub lost_focus: bool,
    pub enter_pressed: bool,
}

impl ConfigInputView {
    /// Whether this input commits the key: the field lost focus while Enter
    /// was pressed.
    pub open spec fn commits(self) -> bool {
        self.lost_focus && self.enter_pressed
    }
}

/// What the key-entry dialog reported in one frame.
#[derive(Debug)]
pub struct ConfigInput {
    /// Content of the text field after this frame's edits.
    pub api_key: String,
    /// Whether the text field lost input focus in this frame.
    pub lost_focus: bool,
    /// Whether the Enter key was pressed in this frame.
    pub enter_pressed: bool,
}

impl View for ConfigInput {
    type V = ConfigInputView;

    open spec fn view(&self) -> ConfigInputView {
        ConfigInputView {
            api_key: self.api_key@,
            lost_focus: self.lost_focus,
            enter_pressed: self.enter_pressed,
        }
    }
}

} // verus!
