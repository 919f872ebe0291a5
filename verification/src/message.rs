//! The events that the loop hands to the active panel.

use vstd::prelude::*;

use bitcoin::Address;

use crate::error::Error;

verus! {

/// An entry of the navigation menu; each names one kind of panel.
#[derive(Debug, Clone, Copy, PartialEq, Eq, Structural)]
pub enum Menu {
    Home,
    Receive,
}

/// An event: a signal from the user or a timer, or the result of deferred work.
#[derive(Debug, PartialEq, Eq)]
pub enum Message {
    /// The timer fired.
    Tick,
    /// The user picked an entry of the menu.
    Menu(Menu),
    /// A request for a new receiving address came back.
    ReceiveAddress(Result<Address, Error>),
}

impl Clone for Message {
    fn clone(&self) -> (copy: Message)
        ensures
            copy == *self,
    {
        match self {
            Message::Tick => Message::Tick,
            Message::Menu(menu) => Message::Menu(*menu),
            Message::ReceiveAddress(Ok(address)) => Message::ReceiveAddress(Ok(address.clone())),
            Message::ReceiveAddress(Err(e)) => Message::ReceiveAddress(Err(*e)),
        }
    }
}

} // verus!
