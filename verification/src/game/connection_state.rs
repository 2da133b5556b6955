//! The states of the client's connection.

use vstd::prelude::*;
use vstd::string::StringExecFns;

verus! {

/// Where the client stands with the server. A connection is in exactly one
/// of these at any time.
#[derive(Debug, Clone, Copy, PartialEq, Eq, Structural)]
pub enum ConnectionState {
    NotConnected,
    Connecting,
    Connected,
    Spurious,
}

impl ConnectionState {
    /// The name of the state, as the status display shows it.
    pub open spec fn name(self) -> Seq<char> {
        match self {
            ConnectionState::NotConnected => "NotConnected"@,
            ConnectionState::Connecting => "Connecting"@,
            ConnectionState::Connected => "Connected"@,
            ConnectionState::Spurious => "Spurious"@,
        }
    }

    /// The name of the state as text.
    pub fn to_string(self) -> (text: String)
        ensures
            text@ == self.name(),
    {
        match self {
            ConnectionState::NotConnected => String::from_str("NotConnected"),
            ConnectionState::Connecting => String::from_str("Connecting"),
            ConnectionState::Connected => String::from_str("Connected"),
            ConnectionState::Spurious => String::from_str("Spurious"),
        }
    }
}

} // verus!
