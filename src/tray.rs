//! The tray menu's command surface: what a click on a menu item asks for.

use vstd::prelude::*;
use crate::menu_ids::{is_voice_id, voice_name_from_id, voice_of_id};

verus! {

/// What a menu click asks for.
#[derive(Debug)]
pub enum MenuAction {
    ToggleMonitor,
    Stop,
    ChangeVoice(String),
    Quit,
    Unknown,
}

/// Mathematical form of a menu action.
pub enum MenuActionView {
    ToggleMonitor,
    Stop,
    ChangeVoice(Seq<char>),
    Quit,
    Unknown,
}

impl View for MenuAction {
    type V = MenuActionView;

    open spec fn view(&self) -> MenuActionView {
        match self {
            MenuAction::ToggleMonitor => MenuActionView::ToggleMonitor,
            MenuAction::Stop => MenuActionView::Stop,
            MenuAction::ChangeVoice(v) => MenuActionView::ChangeVoice(v@),
            MenuAction::Quit => MenuActionView::Quit,
            MenuAction::Unknown => MenuActionView::Unknown,
        }
    }
}

/// The action of the menu item with identifier `id`.
pub open spec fn action_of_id(id: Seq<char>) -> MenuActionView {
    if id == "monitor"@ {
        MenuActionView::ToggleMonitor
    } else if id == "stop"@ {
        MenuActionView::Stop
    } else if id == "quit"@ {
        MenuActionView::Quit
    } else if is_voice_id(id) {
        MenuActionView::ChangeVoice(voice_of_id(id))
    } else {
        MenuActionView::Unknown
    }
}

/// Maps the identifier of a clicked menu item to its action.
pub fn process_menu_event(id: &str) -> (r: MenuAction)
    ensures
        r@ == action_of_id(id@),
{
    let owned = String::from_str(id);
    if owned == crate::menu_ids::monitor() {
        MenuAction::ToggleMonitor
    } else if owned == crate::menu_ids::stop() {
        MenuAction::Stop
    } else if owned == crate::menu_ids::quit() {
        MenuAction::Quit
    } else {
        match voice_name_from_id(id) {
            Some(v) => MenuAction::ChangeVoice(v),
            None => MenuAction::Unknown,
        }
    }
}

} // verus!
