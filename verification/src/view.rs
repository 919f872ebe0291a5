//! What a panel asks the screen to show, as plain data. Turning it into
//! widgets is left to the caller.

use vstd::prelude::*;

use bitcoin::Address;
use iced::widget::qr_code::State as QrState;

use crate::error::Error;
use crate::message::Menu;

verus! {

/// The body of a dashboard.
#[derive(Debug)]
pub enum Content<'a> {
    /// Nothing to show.
    Empty,
    /// A receiving address, as text and as a QR code.
    Receive { address: &'a Address, qr_code: &'a QrState },
}

/// A whole screen: the menu with one entry marked active, a warning banner
/// if there is something to warn of, and the body.
#[derive(Debug)]
pub struct Dashboard<'a> {
    /// The menu entry shown as active.
    pub menu: Menu,
    /// The failure to show in a banner above the body.
    pub warning: Option<Error>,
    /// The body.
    pub content: Content<'a>,
}

} // verus!
