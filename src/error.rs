//! The errors that the core reports to its user.
use vstd::prelude::*;
use vstd::string::StringExecFns;

verus! {

/// Why an operation failed. Backend and file-system failures carry the
/// backend's own description.
#[derive(Debug)]
pub enum AppError {
    Io(String),
    Git(String),
    EventChannelClosed,
    RepoNotFound,
    PushFailed(String),
    NoRemote,
}

impl AppError {
    /// The text shown to the user for this error.
    pub open spec fn spec_text(&self) -> Seq<char> {
        match self {
            AppError::Io(s) => "IO Error: "@ + s@,
            AppError::Git(s) => "Git Error: "@ + s@,
            AppError::EventChannelClosed => "Event channel closed unexpectedly"@,
            AppError::RepoNotFound => "No git repository found at or above the current directory"@,
            AppError::PushFailed(s) => "Push failed: "@ + s@,
            AppError::NoRemote => "No remote named 'origin' is configured"@,
        }
    }

    /// Renders the error for the user.
    pub fn text(&self) -> (r: String)
        ensures
            r@ == self.spec_text(),
    {
        match self {
            AppError::Io(s) => {
                let mut r = String::from_str("IO Error: ");
                r.append(s.as_str());
                r
            },
            AppError::Git(s) => {
                let mut r = String::from_str("Git Error: ");
                r.append(s.as_str());
                r
            },
            AppError::EventChannelClosed => String::from_str("Event channel closed unexpectedly"),
            AppError::RepoNotFound => String::from_str(
                "No git repository found at or above the current directory",
            ),
            AppError::PushFailed(s) => {
                let mut r = String::from_str("Push failed: ");
                r.append(s.as_str());
                r
            },
            AppError::NoRemote => String::from_str("No remote named 'origin' is configured"),
        }
    }

    /// Whether this is the missing-remote condition, which the user can
    /// correct by adding one.
    pub fn is_no_remote(&self) -> (r: bool)
        ensures
            r == (self is NoRemote),
    {
        match self {
            AppError::NoRemote => true,
            _ => false,
        }
    }
}

} // verus!
