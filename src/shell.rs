//! What the menu-bar shell does with a hotkey press or a tray click.

use vstd::prelude::*;

verus! {

pub const MAIN_WINDOW: &'static str = "main";

pub const OVERLAY_WINDOW: &'static str = "overlay";

pub const TRAY_ID: &'static str = "main-tray";

/// The two global hotkeys: Ctrl+Option+O and Ctrl+Option+L.
#[derive(Debug, Clone, Copy, PartialEq, Eq, Structural)]
pub enum Hotkey {
    ToggleOverlay,
    ToggleMain,
}

/// What happens to a window.
#[derive(Debug, Clone, Copy, PartialEq, Eq, Structural)]
pub enum WindowAction {
    /// Hide it (for the overlay: and give focus back to the previous app).
    Hide,
    /// Show it and bring it to the front with focus (for the overlay: above
    /// fullscreen apps, on every workspace).
    Show,
}

/// The label of the window that a hotkey toggles.
pub fn window_of(key: Hotkey) -> (r: &'static str)
    ensures
        r == match key {
            Hotkey::ToggleOverlay => OVERLAY_WINDOW,
            Hotkey::ToggleMain => MAIN_WINDOW,
        },
{
    match key {
        Hotkey::ToggleOverlay => OVERLAY_WINDOW,
        Hotkey::ToggleMain => MAIN_WINDOW,
    }
}

/// A hotkey toggles its window on the press, not on the release: a visible
/// window is hidden, any other is shown. A window whose visibility cannot be
/// read counts as hidden.
pub fn on_hotkey(pressed: bool, visible: Option<bool>) -> (r: Option<WindowAction>)
    ensures
        !pressed ==> r is None,
        pressed && visible == Some(true) ==> r == Some(WindowAction::Hide),
        pressed && visible != Some(true) ==> r == Some(WindowAction::Show),
{
    if !pressed {
        None
    } else {
        match visible {
            Some(true) => Some(WindowAction::Hide),
            _ => Some(WindowAction::Show),
        }
    }
}

/// Releasing the left button over the tray icon shows the main window.
pub fn tray_click_shows_main(left_button: bool, released: bool) -> (r: bool)
    ensures
        r == (left_button && released),
{
    left_button && released
}

} // verus!
