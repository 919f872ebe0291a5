//! The visual encoding of a receiving address.
//!
//! The address and its encoding are values of the `bitcoin` and `iced` crates.
//! This module declares their types, gives what those crates compute a name
//! that contracts can speak of, and holds the calls. Of those calls nothing
//! is proved: their contracts are taken from the crates' own text. Only
//! `encode`, which puts the two calls together, is verified.

use vstd::prelude::*;

use bitcoin::Address;
use iced::widget::qr_code;
use iced::widget::qr_code::State as QrState;

use crate::error::QrError;

verus! {

/// `bitcoin::Address`, carried through as an opaque value.
#[verifier::external_type_specification]
#[verifier::external_body]
pub struct ExAddress(bitcoin::Address);

/// `iced::widget::qr_code::State`, the grid of a QR code ready to be drawn,
/// carried through as an opaque value.
#[verifier::external_type_specification]
#[verifier::external_body]
pub struct ExQrState(QrState);

/// The text that `bitcoin::Address::to_qr_uri` gives for `address`: the
/// `bitcoin:` scheme followed by the address, both in upper case for a
/// witness program.
pub uninterp spec fn qr_uri(address: Address) -> Seq<char>;

/// What `iced::widget::qr_code::State::new` gives for `data`: the smallest QR
/// code that holds it at medium error correction, or the reason why there is
/// none, each reason under the variant of `QrError` that bears its name.
pub uninterp spec fn qr_encoding(data: Seq<char>) -> Result<QrState, QrError>;

/// `<bitcoin::Address as Clone>::clone`: the derived clone, which copies the
/// payload and the network.
pub assume_specification[ <bitcoin::Address as Clone>::clone ](address: &Address) -> (copy: Address)
    ensures
        copy == *address,
;

/// Calls `bitcoin::Address::to_qr_uri`, which formats the address into a
/// new string and fails on no address. The text depends on the address alone.
#[verifier::external_body]
fn address_qr_uri(address: &Address) -> (uri: String)
    ensures
        uri@ == qr_uri(*address),
{
    address.to_qr_uri()
}

/// Calls `iced::widget::qr_code::State::new`, which hands the bytes of `data`
/// to the QR encoder and returns its grid or its error. The outcome depends
/// on `data` alone. The error is handed on variant by variant.
#[verifier::external_body]
fn encode_qr(data: &str) -> (encoded: Result<QrState, QrError>)
    ensures
        encoded == qr_encoding(data@),
{
    qr_code::State::new(data).map_err(|e| match e {
        qr_code::Error::DataTooLong => QrError::DataTooLong,
        qr_code::Error::InvalidVersion => QrError::InvalidVersion,
        qr_code::Error::UnsupportedCharacterSet => QrError::UnsupportedCharacterSet,
        qr_code::Error::InvalidEciDesignator => QrError::InvalidEciDesignator,
        qr_code::Error::InvalidCharacter => QrError::InvalidCharacter,
    })
}

/// The QR code of an address: the encoding of its URI.
pub open spec fn encoding(address: Address) -> Result<QrState, QrError> {
    qr_encoding(qr_uri(address))
}

/// Encodes `address` for display as a QR code.
pub fn encode(address: &Address) -> (encoded: Result<QrState, QrError>)
    ensures
        encoded == encoding(*address),
{
    let uri = address_qr_uri(address);
    encode_qr(uri.as_str())
}

} // verus!
