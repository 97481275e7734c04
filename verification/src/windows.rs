//! Window bookkeeping for the event dispatcher.
//!
//! Events arrive tagged with the window they belong to; the registry says
//! which role that window plays. The main window exists for the whole run of
//! the program, the settings and edit-splits windows only while their dialog
//! is open. Windows are identified by the plain numbers the windowing layer
//! assigns.
use vstd::prelude::*;

verus! {

/// The role a window plays.
#[derive(Clone, Copy, Debug, PartialEq, Eq, Structural)]
pub enum WindowKind {
    /// The main timer window.
    Main,
    /// The hotkey-settings dialog.
    Settings,
    /// The edit-splits dialog.
    EditSplits,
    /// No window this registry knows.
    Untracked,
}

/// The windows currently tracked.
#[derive(Clone, Copy, Debug, PartialEq, Eq, Structural)]
pub struct WindowRegistry {
    /// The main window.
    pub main: u64,
    /// The settings dialog, while open.
    pub settings: Option<u64>,
    /// The edit-splits dialog, while open.
    pub edit_splits: Option<u64>,
}

impl WindowRegistry {
    /// The role of a window: the main window first, then the open dialogs,
    /// and anything else is untracked.
    pub open spec fn spec_identify(self, id: u64) -> WindowKind {
        if id == self.main {
            WindowKind::Main
        } else if self.settings == Some(id) {
            WindowKind::Settings
        } else if self.edit_splits == Some(id) {
            WindowKind::EditSplits
        } else {
            WindowKind::Untracked
        }
    }

    /// A registry tracking only the main window.
    pub fn new(main: u64) -> (r: WindowRegistry)
        ensures
            r == (WindowRegistry { main, settings: None, edit_splits: None }),
    {
        WindowRegistry { main, settings: None, edit_splits: None }
    }

    /// Identifies the role of a window.
    pub fn identify_window(&self, id: u64) -> (r: WindowKind)
        ensures
            r == self.spec_identify(id),
    {
        if id == self.main {
            WindowKind::Main
        } else if self.settings == Some(id) {
            WindowKind::Settings
        } else if self.edit_splits == Some(id) {
            WindowKind::EditSplits
        } else {
            WindowKind::Untracked
        }
    }

    /// Records that the settings dialog opened as the given window.
    pub fn settings_opened(&mut self, id: u64)
        ensures
            *final(self) == (WindowRegistry { settings: Some(id), ..*old(self) }),
    {
        self.settings = Some(id);
    }

    /// Records that the settings dialog closed.
    pub fn settings_closed(&mut self)
        ensures
            *final(self) == (WindowRegistry { settings: None, ..*old(self) }),
    {
        self.settings = None;
    }

    /// Records that the edit-splits dialog opened as the given window.
    pub fn edit_splits_opened(&mut self, id: u64)
        ensures
            *final(self) == (WindowRegistry { edit_splits: Some(id), ..*old(self) }),
    {
        self.edit_splits = Some(id);
    }

    /// Records that the edit-splits dialog closed.
    pub fn edit_splits_closed(&mut self)
        ensures
            *final(self) == (WindowRegistry { edit_splits: None, ..*old(self) }),
    {
        self.edit_splits = None;
    }
}

} // verus!
