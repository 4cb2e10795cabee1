//! The gateway's error type for agent-bridge operations.

use vstd::prelude::*;

verus! {

/// An error from the agent bridge or the protocol layer.
#[derive(Debug)]
pub enum GatewayError {
    /// A failure, described by its message.
    Platform(String),
}

impl GatewayError {
    /// The text of this error: its message.
    pub fn to_message(&self) -> (r: String)
        ensures
            match self {
                GatewayError::Platform(m) => r@ == m@,
            },
    {
        match self {
            GatewayError::Platform(m) => m.clone(),
        }
    }
}

} // verus!
