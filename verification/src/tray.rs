//! What the entries of the tray menu stand for, and which windows a click on
//! the tray icon brings up.

use crate::text::same_text;
use vstd::prelude::*;

verus! {

/// An entry of the tray menu.
#[derive(Clone, Copy, Debug, PartialEq, Eq, Structural)]
pub enum TrayCommand {
    Quit,
    Show,
    Hide,
    EditFile,
    NewFile,
    About,
}

/// The entry that has the identifier `id` in the menu.
pub open spec fn command_named(id: Seq<char>) -> Option<TrayCommand> {
    if id == "quit"@ {
        Some(TrayCommand::Quit)
    } else if id == "show"@ {
        Some(TrayCommand::Show)
    } else if id == "hide"@ {
        Some(TrayCommand::Hide)
    } else if id == "edit_file"@ {
        Some(TrayCommand::EditFile)
    } else if id == "new_file"@ {
        Some(TrayCommand::NewFile)
    } else if id == "about"@ {
        Some(TrayCommand::About)
    } else {
        None
    }
}

/// A window with this label is one that a left click on the tray icon shows.
pub open spec fn is_shown_on_click(label: Seq<char>) -> bool {
    label == "main-login"@ || label == "main"@
}

impl TrayCommand {
    /// The entry that has the identifier `id` in the menu, if there is one.
    pub fn named(id: &str) -> (r: Option<TrayCommand>)
        ensures
            r == command_named(id@),
    {
        if same_text(id, "quit") {
            Some(TrayCommand::Quit)
        } else if same_text(id, "show") {
            Some(TrayCommand::Show)
        } else if same_text(id, "hide") {
            Some(TrayCommand::Hide)
        } else if same_text(id, "edit_file") {
            Some(TrayCommand::EditFile)
        } else if same_text(id, "new_file") {
            Some(TrayCommand::NewFile)
        } else if same_text(id, "about") {
            Some(TrayCommand::About)
        } else {
            None
        }
    }
}

/// Whether a left click on the tray icon shows the window with this label.
pub fn shows_on_click(label: &str) -> (b: bool)
    ensures
        b == is_shown_on_click(label@),
{
    same_text(label, "main-login") || same_text(label, "main")
}

} // verus!
