//! Deferred work, described but not run. A panel hands these descriptions
//! back to the loop; whoever runs the loop performs them and delivers what
//! comes of them as a message.

use vstd::prelude::*;

use crate::daemon::{AddressInfo, DaemonError};
use crate::error::Error;
use crate::message::Message;

verus! {

/// One piece of work to perform off the loop. Each yields exactly one message.
#[derive(Debug, Clone, Copy, PartialEq, Eq, Structural)]
pub enum Task {
    /// Ask the daemon to set aside a new receiving address.
    GetNewAddress,
}

/// A source of messages that stays open while a panel is active.
#[derive(Debug, Clone, Copy, PartialEq, Eq, Structural)]
pub enum Subscription {
    /// A timer; each firing arrives as `Message::Tick`.
    Tick,
}

impl Task {
    /// The message to deliver once the daemon has answered with `reply`: the address alone on success, the daemon's error as an
    /// `Error` on failure.
    pub open spec fn outcome(self, reply: Result<AddressInfo, DaemonError>) -> Message {
        match reply {
            Ok(info) => Message::ReceiveAddress(Ok(info.address)),
            Err(e) => Message::ReceiveAddress(Err(Error::Daemon(e))),
        }
    }

    /// Turns the daemon's reply into the message to deliver.
    pub fn complete(self, reply: Result<AddressInfo, DaemonError>) -> (message: Message)
        ensures
            message == self.outcome(reply),
    {
        match reply {
            Ok(info) => Message::ReceiveAddress(Ok(info.address)),
            Err(e) => Message::ReceiveAddress(Err(Error::from(e))),
        }
    }
}

} // verus!
