//! The menu of the player application.
use vstd::prelude::*;

verus! {

/// The events of the menu.
#[derive(Debug)]
pub enum MenuEvent {
    /// open the file dialog
    OpenFileDialog,
    /// the dialog closed, with the chosen file if one was chosen
    OpenFile(Option<String>),
}

impl Clone for MenuEvent {
    fn clone(&self) -> (copy: Self)
        ensures
            copy == *self,
    {
        match self {
            MenuEvent::OpenFileDialog => MenuEvent::OpenFileDialog,
            MenuEvent::OpenFile(file) => MenuEvent::OpenFile(crate::player_builder::clone_opt_text(file)),
        }
    }
}

/// What a menu event asks for.
#[derive(Debug)]
pub enum MenuAction {
    /// show the file dialog, whose answer comes back as `OpenFile`
    ShowFileDialog,
    /// play the file at this uri in the main player
    SetSource(String),
    /// nothing to do
    Nothing,
}

/// What a menu event asks for: the dialog event shows the file dialog, a
/// chosen file becomes the main player's source, and a dialog closed without a
/// choice does nothing.
pub fn menu_action(event: MenuEvent) -> (action: MenuAction)
    ensures
        match event {
            MenuEvent::OpenFileDialog => action is ShowFileDialog,
            MenuEvent::OpenFile(Some(uri)) => action matches MenuAction::SetSource(u) && u@ == uri@,
            MenuEvent::OpenFile(None) => action is Nothing,
        },
{
    match event {
        MenuEvent::OpenFileDialog => MenuAction::ShowFileDialog,
        MenuEvent::OpenFile(file) => match file {
            Some(uri) => MenuAction::SetSource(uri),
            None => MenuAction::Nothing,
        },
    }
}

} // verus!
