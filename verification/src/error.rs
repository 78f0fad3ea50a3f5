//! The failures that the manager reports.

use vstd::prelude::*;

verus! {

/// Why an operation of the manager failed. Every variant carries the
/// human-readable message that is shown to the user.
#[derive(Debug, Clone)]
pub enum ManagerError {
    /// The configuration file could not be written.
    ConfigIo { message: String },
    /// No install directory could be found, or the chosen one does not exist.
    PathNotFound { message: String },
    /// The archive could not be downloaded; `status` is the HTTP status
    /// where a response arrived at all.
    Fetch { status: Option<u16>, message: String },
    /// The downloaded bytes are not a readable archive.
    Archive { message: String },
    /// An addon's files on disk could not be removed or written.
    Extraction { message: String },
    /// The ledger of installed addons could not be written.
    LedgerIo { message: String },
}

/// What a [`ManagerError`] is in contracts.
pub enum ManagerErrorView {
    ConfigIo { message: Seq<char> },
    PathNotFound { message: Seq<char> },
    Fetch { status: Option<u16>, message: Seq<char> },
    Archive { message: Seq<char> },
    Extraction { message: Seq<char> },
    LedgerIo { message: Seq<char> },
}

impl View for ManagerError {
    type V = ManagerErrorView;

    open spec fn view(&self) -> ManagerErrorView {
        match self {
            ManagerError::ConfigIo { message } => ManagerErrorView::ConfigIo { message: message@ },
            ManagerError::PathNotFound { message } => ManagerErrorView::PathNotFound {
                message: message@,
            },
            ManagerError::Fetch { status, message } => ManagerErrorView::Fetch {
                status: *status,
                message: message@,
            },
            ManagerError::Archive { message } => ManagerErrorView::Archive { message: message@ },
            ManagerError::Extraction { message } => ManagerErrorView::Extraction {
                message: message@,
            },
            ManagerError::LedgerIo { message } => ManagerErrorView::LedgerIo { message: message@ },
        }
    }
}

impl ManagerError {
    /// The message of the error, as a sequence of characters.
    pub open spec fn text(&self) -> Seq<char> {
        match self {
            ManagerError::ConfigIo { message } => message@,
            ManagerError::PathNotFound { message } => message@,
            ManagerError::Fetch { status: _, message } => message@,
            ManagerError::Archive { message } => message@,
            ManagerError::Extraction { message } => message@,
            ManagerError::LedgerIo { message } => message@,
        }
    }

    /// The message to show to the user.
    pub fn message(&self) -> (s: String)
        ensures
            s@ == self.text(),
    {
        match self {
            ManagerError::ConfigIo { message } => message.clone(),
            ManagerError::PathNotFound { message } => message.clone(),
            ManagerError::Fetch { status: _, message } => message.clone(),
            ManagerError::Archive { message } => message.clone(),
            ManagerError::Extraction { message } => message.clone(),
            ManagerError::LedgerIo { message } => message.clone(),
        }
    }
}

} // verus!
