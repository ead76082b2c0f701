//! Shared vocabulary of the service.

use vstd::prelude::*;

verus! {

/// The transport over which the modem is reached.
#[derive(Debug, Clone, Copy, PartialEq, Eq, Structural)]
pub enum ConnectionType {
    Network,
    Serial,
}

} // verus!
