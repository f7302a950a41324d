//! The camera and the per-frame decisions of the two screens.

use vstd::prelude::*;

pub mod camera;
pub mod main_menu;
pub mod game;

verus! {

/// What a screen tells the frame loop at the end of a frame.
#[derive(Clone, Copy, Debug, PartialEq, Eq, Structural)]
pub enum ViewAction {
    /// Show the same screen again.
    Continue,
    /// Replace the menu with the live view.
    ChangeToGame,
    /// End the loop.
    Quit,
}

} // verus!
