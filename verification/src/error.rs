//! What can go wrong.
use vstd::prelude::*;

use crate::text::Text;

verus! {

/// An error of the installer.
#[derive(Debug, Clone)]
pub enum DeploytixError {
    /// The target device does not exist.
    DeviceNotFound(String),
    /// The target exists and is no block device.
    NotBlockDevice(String),
    /// A rule on configurations is broken.
    ValidationError(String),
    /// The configuration cannot be carried out as asked.
    ConfigError(String),
    /// A command ended with an error.
    CommandFailed { command: String, stderr: String },
    /// The user called it off.
    UserCancelled,
    /// The program needs root.
    NotRoot,
}

pub type Result<T> = core::result::Result<T, DeploytixError>;

impl DeploytixError {
    /// A validation error with this text.
    pub open spec fn says(self, t: Text) -> bool {
        self matches DeploytixError::ValidationError(m) && m@ == t
    }

    /// A configuration error with this text.
    pub open spec fn config_says(self, t: Text) -> bool {
        self matches DeploytixError::ConfigError(m) && m@ == t
    }

    /// The text of the error.
    pub open spec fn text(self) -> Text {
        match self {
            DeploytixError::DeviceNotFound(d) => "Device not found: "@ + d@,
            DeploytixError::NotBlockDevice(d) => "Not a block device: "@ + d@,
            DeploytixError::ValidationError(m) => m@,
            DeploytixError::ConfigError(m) => m@,
            DeploytixError::CommandFailed { command, stderr } => command@ + ": "@ + stderr@,
            DeploytixError::UserCancelled => "Cancelled by the user"@,
            DeploytixError::NotRoot => "This program must be run as root"@,
        }
    }

    pub fn to_text(&self) -> (r: String)
        ensures
            r@ == self.text(),
    {
        match self {
            DeploytixError::DeviceNotFound(d) => crate::text::concat("Device not found: ", d.as_str()),
            DeploytixError::NotBlockDevice(d) => crate::text::concat(
                "Not a block device: ",
                d.as_str(),
            ),
            DeploytixError::ValidationError(m) => m.clone(),
            DeploytixError::ConfigError(m) => m.clone(),
            DeploytixError::CommandFailed { command, stderr } => {
                let mut s = command.clone();
                s.push_str(": ");
                s.push_str(stderr.as_str());
                s
            },
            DeploytixError::UserCancelled => "Cancelled by the user".to_owned(),
            DeploytixError::NotRoot => "This program must be run as root".to_owned(),
        }
    }
}

/// A validation error with a fixed text.
pub fn invalid(text: &str) -> (r: DeploytixError)
    ensures
        r.says(text@),
{
    DeploytixError::ValidationError(text.to_owned())
}

} // verus!
