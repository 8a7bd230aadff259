//! What can go wrong while dependencies are looked up.
use vstd::prelude::*;

use crate::text;
use crate::text::{concat, Text};

verus! {

/// An error of a dependency lookup.
#[derive(Debug, Clone, PartialEq, Eq)]
pub enum Error {
    /// A tool ran and reported failure.
    CommandFailed { command: String, stderr: String },
    /// A tool that is needed is not installed.
    CommandNotFound(String),
    /// Arguments that mean nothing, or a package that does not exist.
    Invalid(String),
    /// Reading or writing failed, for this reason.
    Io(String),
}

pub type Result<T> = core::result::Result<T, Error>;

impl Error {
    /// The text of the error.
    pub open spec fn text(self) -> Text {
        match self {
            Error::CommandFailed { command, stderr } => "command failed: "@ + command@ + "\n"@
                + stderr@,
            Error::CommandNotFound(tool) => "required command not found: "@ + tool@,
            Error::Invalid(what) => what@,
            Error::Io(why) => "I/O error: "@ + why@,
        }
    }

    pub fn to_text(&self) -> (r: String)
        ensures
            r@ == self.text(),
    {
        match self {
            Error::CommandFailed { command, stderr } => {
                let mut s = concat("command failed: ", command.as_str());
                s.push_str("\n");
                s.push_str(stderr.as_str());
                s
            },
            Error::CommandNotFound(tool) => concat("required command not found: ", tool.as_str()),
            Error::Invalid(what) => what.clone(),
            Error::Io(why) => concat("I/O error: ", why.as_str()),
        }
    }
}

} // verus!
