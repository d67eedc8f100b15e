//! Decisions of the desktop shell: the tray menu, the settings window's
//! close button, and whether the overlay already has a saved placement.
use vstd::prelude::*;

use crate::json::{doc_member, is_json_text, json_doc_of, json_get, parse_json};
use crate::text::str_eq;

verus! {

/// What a tray menu item does.
#[derive(PartialEq, Eq, Structural)]
pub enum TrayAction {
    /// Show, restore and focus the settings window.
    ShowSettings,
    /// Quit the application.
    Quit,
    /// Nothing.
    Ignore,
}

/// The action of the tray menu item with the given id.
pub fn tray_menu_action(id: &str) -> (r: TrayAction)
    ensures
        r == (if id@ == "show"@ {
            TrayAction::ShowSettings
        } else if id@ == "quit"@ {
            TrayAction::Quit
        } else {
            TrayAction::Ignore
        }),
{
    if str_eq(id, "show") {
        TrayAction::ShowSettings
    } else if str_eq(id, "quit") {
        TrayAction::Quit
    } else {
        TrayAction::Ignore
    }
}

/// Whether closing the window with this label hides it instead: the
/// settings window stays alive in the tray.
pub fn hides_on_close(label: &str) -> (r: bool)
    ensures
        r == (label@ == "settings"@),
{
    str_eq(label, "settings")
}

/// Whether saved window state (the text of the window-state file) already
/// places the overlay; text that is not JSON places nothing.
pub fn window_state_has_overlay(content: &str) -> (r: bool)
    ensures
        r == (is_json_text(content@) && doc_member(json_doc_of(content@), "overlay"@) is Some),
{
    match parse_json(content) {
        Ok(json) => json_get(json.root(), "overlay").is_some(),
        Err(_) => false,
    }
}

} // verus!
