//! The menu's commands, and what each asks of the world outside the
//! editor's state.

use vstd::prelude::*;
use crate::document::{blank_doc, SaveTarget};
use crate::tabs::{append_spec, NotepadApp};

verus! {

/// An entry of the menu bar.
#[derive(Clone, Copy, PartialEq, Eq, Structural, Debug)]
pub enum Command {
    New,
    Open,
    Save,
    SaveAs,
    Exit,
    /// Shown in the Edit menu; has no effect.
    Undo,
    /// Shown in the Edit menu; has no effect.
    Redo,
}

/// What the caller must do after a command has run on the state.
#[derive(Debug)]
pub enum Effect {
    /// Nothing more.
    Nothing,
    /// Ask the user for a file to open, read it, and hand the outcome to
    /// `NotepadApp::open_file`.
    PickFileToOpen,
    /// Write the active document's text to this file, and hand the outcome
    /// to `NotepadApp::finish_save_active`.
    Write(String),
    /// Ask the user where to save the active document; if they choose a
    /// file, write the text there and hand the outcome to
    /// `NotepadApp::finish_save_active`.
    PickFileToSave,
    /// Close the window.
    Quit,
}

impl NotepadApp {
    /// Runs a menu command: "New" adds a blank document; "Save" writes to
    /// the active document's own file, or asks for one where it has none;
    /// "Open", "Save As" and "Exit" hand the work to the caller; "Undo" and
    /// "Redo" do nothing.
    pub fn run_command(&mut self, cmd: Command) -> (r: Effect)
        requires
            old(self).wf(),
        ensures
            final(self).wf(),
            cmd == Command::New ==> final(self)@ == append_spec(old(self)@, blank_doc()),
            cmd != Command::New ==> final(self)@ == old(self)@,
            match cmd {
                Command::New | Command::Undo | Command::Redo => r is Nothing,
                Command::Open => r is PickFileToOpen,
                Command::Save => match old(self)@.docs[old(self)@.active as int].path {
                    Some(p) => r matches Effect::Write(w) && w@ == p,
                    None => r is PickFileToSave,
                },
                Command::SaveAs => r is PickFileToSave,
                Command::Exit => r is Quit,
            },
    {
        match cmd {
            Command::New => {
                self.new_tab();
                Effect::Nothing
            },
            Command::Open => Effect::PickFileToOpen,
            Command::Save => match self.save_active() {
                SaveTarget::Write(p) => Effect::Write(p),
                SaveTarget::NoPath => Effect::PickFileToSave,
            },
            Command::SaveAs => Effect::PickFileToSave,
            Command::Exit => Effect::Quit,
            Command::Undo | Command::Redo => Effect::Nothing,
        }
    }
}

} // verus!
