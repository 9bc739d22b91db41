//! The errors of mail operations.

use vstd::prelude::*;

use crate::text::{push_str, string_of};

verus! {

/// std's `std::io::Error`, carried through unopened.
#[verifier::external_type_specification]
#[verifier::external_body]
pub struct ExIoError(std::io::Error);

/// Why a mail operation failed.
#[derive(Debug)]
pub enum MailError {
    /// Mail has no message with this (cleaned) id in the inbox.
    MessageNotFound(String),
    /// The script could not be run, failed, or printed something unexpected.
    AppleScriptError(String),
    /// Reading or writing a file failed.
    IoError(std::io::Error),
}

/// The text of an I/O error; std's `Display` of `std::io::Error`. Nothing is
/// stated of it: it comes from the operating system.
#[verifier::external_body]
fn io_error_text(e: &std::io::Error) -> String {
    e.to_string()
}

/// The human-readable text of a `MailError`.
pub open spec fn error_text(e: MailError) -> Seq<char> {
    match e {
        MailError::MessageNotFound(id) => "Message not found with ID: "@ + id@,
        MailError::AppleScriptError(m) => "AppleScript execution failed: "@ + m@,
        MailError::IoError(_) => "IO error: "@,
    }
}

impl MailError {
    /// The error's message, as the command line prints it.
    pub fn message(&self) -> (m: String)
        ensures
            !(self is IoError) ==> m@ == error_text(*self),
            self is IoError ==> error_text(*self).is_prefix_of(m@),
    {
        let mut v: Vec<char> = Vec::new();
        match self {
            MailError::MessageNotFound(id) => {
                push_str(&mut v, "Message not found with ID: ");
                push_str(&mut v, id.as_str());
            },
            MailError::AppleScriptError(m) => {
                push_str(&mut v, "AppleScript execution failed: ");
                push_str(&mut v, m.as_str());
            },
            MailError::IoError(e) => {
                push_str(&mut v, "IO error: ");
                let ghost head = v@;
                let t = io_error_text(e);
                push_str(&mut v, t.as_str());
                assert(v@.subrange(0, head.len() as int) == head);
            },
        }
        string_of(&v)
    }
}

} // verus!
