//! Style choices that the rendering layer turns into colours and borders.

use vstd::prelude::*;

verus! {

/// The application's own look for containers and for primary buttons.
#[derive(Debug, Clone, Copy, PartialEq, Eq, Structural)]
pub struct CustomTheme;

/// The look of one navigation button of the sidebar.
#[derive(Debug, Clone, Copy, PartialEq, Eq, Structural)]
pub struct NavButtonTheme {
    /// Whether the button leads to the pane that is on screen.
    pub is_active: bool,
}

} // verus!
