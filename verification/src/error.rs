//! The failures that the library reports.

use vstd::prelude::*;
use vstd::string::StringExecFns;
use crate::text::{decimal, push_decimal};

verus! {

/// Why an operation on a shared VLAN or on its socket did not succeed.
#[derive(Clone, Copy, Debug, PartialEq, Eq, Structural)]
pub enum VlanError {
    /// Taking or dropping the advisory lock failed.
    LockError,
    /// The shared-memory segment could not be opened, mapped or unlinked, or
    /// it has no slot left for another owner.
    ShmError,
    /// An `ip` or `tc` invocation ended with a status other than zero.
    DeviceCommandError { exit_code: i32 },
    /// A socket call failed with the given `errno`.
    SocketError { errno: i32 },
    /// The configuration asks for both time-aware and credit-based shaping.
    ConfigConflictError,
}

impl VlanError {
    /// What `message` returns for this error.
    pub open spec fn message_text(self) -> Seq<char> {
        match self {
            VlanError::LockError => "shared-memory lock failed"@,
            VlanError::ShmError => "shared-memory segment failed"@,
            VlanError::DeviceCommandError { exit_code } => "device command exited with status "@
                + decimal(exit_code as int),
            VlanError::SocketError { errno } => "socket call failed with errno "@ + decimal(
                errno as int,
            ),
            VlanError::ConfigConflictError => "Does not support both TAS and CBS"@,
        }
    }

    /// A one-line description of the error.
    pub fn message(&self) -> (text: String)
        ensures
            text@ == self.message_text(),
    {
        match self {
            VlanError::LockError => String::from_str("shared-memory lock failed"),
            VlanError::ShmError => String::from_str("shared-memory segment failed"),
            VlanError::DeviceCommandError { exit_code } => {
                let mut text = String::from_str("device command exited with status ");
                push_decimal(&mut text, *exit_code as i128);
                text
            },
            VlanError::SocketError { errno } => {
                let mut text = String::from_str("socket call failed with errno ");
                push_decimal(&mut text, *errno as i128);
                text
            },
            VlanError::ConfigConflictError => String::from_str("Does not support both TAS and CBS"),
        }
    }
}

} // verus!
