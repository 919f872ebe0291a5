//! What the daemon answers. The daemon itself is reached from outside this
//! library; its replies come in as the plain values below.

use vstd::prelude::*;

use bitcoin::Address;

verus! {

/// What the daemon answered in place of a result.
#[derive(Debug, Clone, Copy, PartialEq, Eq, Structural)]
pub enum DaemonError {
    /// The daemon could not be reached.
    NetworkUnavailable,
    /// The daemon did not answer in time.
    Timeout,
    /// The daemon answered with something that is no reply to the request.
    Unexpected,
}

/// The daemon's reply to a request for a new receiving address.
#[derive(Debug, PartialEq, Eq)]
pub struct AddressInfo {
    /// The address that the daemon set aside.
    pub address: Address,
}

} // verus!
