//! Failures that reach a panel as data.

use vstd::prelude::*;
use vstd::std_specs::convert::FromSpecImpl;

use crate::daemon::DaemonError;

verus! {

/// Why no QR code could be built from a piece of data.
#[derive(Debug, Clone, Copy, PartialEq, Eq, Structural)]
pub enum QrError {
    /// The data does not fit into the largest QR code.
    DataTooLong,
    /// The version and the error correction level do not go together.
    InvalidVersion,
    /// The data holds characters that the version cannot carry.
    UnsupportedCharacterSet,
    /// The ECI designator is out of range.
    InvalidEciDesignator,
    /// A character is outside the character set in use.
    InvalidCharacter,
}

/// A failure as a panel stores and shows it.
#[derive(Debug, Clone, Copy, PartialEq, Eq, Structural)]
pub enum Error {
    /// A request to the daemon failed.
    Daemon(DaemonError),
    /// An address came back but no QR code could be built from it.
    QrCode(QrError),
}

impl From<DaemonError> for Error {
    fn from(e: DaemonError) -> (error: Error) {
        Error::Daemon(e)
    }
}

impl FromSpecImpl<DaemonError> for Error {
    open spec fn obeys_from_spec() -> bool {
        true
    }

    open spec fn from_spec(e: DaemonError) -> Error {
        Error::Daemon(e)
    }
}

} // verus!
