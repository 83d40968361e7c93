//! The run-time-resolved choice of subprocess backend.

use vstd::prelude::*;

verus! {

/// Which of the two command-line dialog tools services the current call.
///
/// The choice is resolved fresh for every call by probing the environment
/// (the probe itself is I/O and lives outside this crate); no choice is ever
/// cached across calls.
#[derive(Clone, Copy, Debug, PartialEq, Eq, Structural)]
pub enum UseCommand {
    KDialog,
    Zenity,
}

/// Whether the dialog selects a file or a directory.
#[derive(Clone, Copy, Debug, PartialEq, Eq, Structural)]
pub enum OpenDialogTarget {
    File,
    Directory,
}

impl UseCommand {
    /// The executable name of the chosen tool, as it is reported in errors.
    pub fn tool_name(&self) -> (r: &'static str)
        ensures
            *self == UseCommand::KDialog ==> r@ == "kdialog"@,
            *self == UseCommand::Zenity ==> r@ == "zenity"@,
    {
        match self {
            UseCommand::KDialog => "kdialog",
            UseCommand::Zenity => "zenity",
        }
    }
}

} // verus!
