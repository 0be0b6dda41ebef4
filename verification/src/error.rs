//! The structured error that every operation reports.

use vstd::prelude::*;
use vstd::string::StringExecFns;

verus! {

/// What went wrong, independent of any wording.
#[derive(Clone, Copy, Debug, PartialEq, Eq, Structural)]
pub enum ErrorKind {
    /// The per-user data directory could not be determined.
    PathResolution,
    /// The database file could not be opened or created.
    Open,
    /// The schema could not be brought to its latest version.
    Migration,
    /// The source file could not be opened, measured or read.
    SourceIo,
    /// The store refused an insert, a blob operation or a commit.
    StoreIo,
    /// No document has been stored yet.
    NotFound,
    /// A driver reported something the operation was not waiting for.
    Protocol,
}

/// A failure of one operation: its kind and a message for display.
#[derive(Debug, PartialEq, Eq)]
pub struct Error {
    pub kind: ErrorKind,
    pub message: String,
}

/// The message used for a failure of `kind` when no cause is at hand.
pub open spec fn default_message(kind: ErrorKind) -> Seq<char> {
    match kind {
        ErrorKind::PathResolution => "Could not find local data directory!"@,
        ErrorKind::Open => "Could not open or create the database"@,
        ErrorKind::Migration => "Could not bring the database schema up to date"@,
        ErrorKind::SourceIo => "Could not read the source file"@,
        ErrorKind::StoreIo => "Could not write the document to the database"@,
        ErrorKind::NotFound => "No document has been stored"@,
        ErrorKind::Protocol => "The operation was driven out of order"@,
    }
}

/// The message shown when the database at `path` cannot be opened.
pub open spec fn open_failure_message(path: Seq<char>) -> Seq<char> {
    "Could not open or create the database at "@ + path
}

impl Error {
    /// An error of the given kind carrying `message` unchanged.
    pub fn new(kind: ErrorKind, message: String) -> (e: Error)
        ensures
            e.kind == kind,
            e.message@ == message@,
    {
        Error { kind, message }
    }

    /// An error of the given kind whose message is `cause` where there is
    /// one, and the kind's default wording otherwise.
    pub fn failure(kind: ErrorKind, cause: Option<String>) -> (e: Error)
        ensures
            e.kind == kind,
            e.message@ == match cause {
                Some(text) => text@,
                None => default_message(kind),
            },
    {
        match cause {
            Some(text) => Error { kind, message: text },
            None => {
                let text = match kind {
                    ErrorKind::PathResolution => "Could not find local data directory!",
                    ErrorKind::Open => "Could not open or create the database",
                    ErrorKind::Migration => "Could not bring the database schema up to date",
                    ErrorKind::SourceIo => "Could not read the source file",
                    ErrorKind::StoreIo => "Could not write the document to the database",
                    ErrorKind::NotFound => "No document has been stored",
                    ErrorKind::Protocol => "The operation was driven out of order",
                };
                Error { kind, message: String::from_str(text) }
            },
        }
    }

    /// The failure to open or create the database file at `path`.
    pub fn open_failed(path: &str) -> (e: Error)
        ensures
            e.kind == ErrorKind::Open,
            e.message@ == open_failure_message(path@),
    {
        let message = String::from_str("Could not open or create the database at ").concat(path);
        Error { kind: ErrorKind::Open, message }
    }

    /// The message alone, as handed to the host shell.
    pub fn into_message(self) -> (message: String)
        ensures
            message@ == self.message@,
    {
        self.message
    }
}

/// Turns a structured result into the form the host shell receives: the value
/// on success, the error's message on failure.
pub fn for_shell<T>(result: Result<T, Error>) -> (reply: Result<T, String>)
    ensures
        match result {
            Ok(value) => reply == Ok::<T, String>(value),
            Err(error) => reply is Err && reply->Err_0@ == error.message@,
        },
{
    match result {
        Ok(value) => Ok(value),
        Err(error) => Err(error.message),
    }
}

} // verus!
