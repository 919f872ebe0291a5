//! The panel that shows a freshly allocated receiving address.

use vstd::prelude::*;

use bitcoin::Address;
use iced::widget::qr_code::State as QrState;

use crate::cache::Cache;
use crate::encoding::{encode, encoding};
use crate::error::{Error, QrError};
use crate::message::{Menu, Message};
use crate::state::State;
use crate::task::Task;
use crate::view::{Content, Dashboard};

verus! {

/// What a receive panel holds, as a mathematical value.
pub struct ReceiveModel {
    /// The address of the last fetch that succeeded.
    pub address: Option<Address>,
    /// The QR code of that address.
    pub qr_code: Option<QrState>,
    /// The failure of the last fetch, if the last fetch failed.
    pub warning: Option<Error>,
}

impl ReceiveModel {
    /// The panel before any message: nothing fetched, nothing to warn of.
    pub open spec fn empty() -> ReceiveModel {
        ReceiveModel { address: None, qr_code: None, warning: None }
    }

    /// There is a QR code exactly when there is an address.
    pub open spec fn paired(self) -> bool {
        self.qr_code is Some <==> self.address is Some
    }

    /// The QR code, where there is one, is the encoding of the address.
    pub open spec fn faithful(self) -> bool {
        self.address matches Some(address) ==> encoding(address) == Ok::<QrState, QrError>(
            self.qr_code->0,
        )
    }

    /// What the panel holds once an address has come back and `encoded` is
    /// what encoding it gave. An address that encodes replaces the old one
    /// and clears the warning. One that does not encode is treated as a
    /// failed fetch: it leaves address and QR code alone and is reported in
    /// the warning.
    pub open spec fn received(self, address: Address, encoded: Result<QrState, QrError>) -> ReceiveModel {
        match encoded {
            Ok(qr_code) => ReceiveModel {
                address: Some(address),
                qr_code: Some(qr_code),
                warning: None,
            },
            Err(e) => self.failed(Error::QrCode(e)),
        }
    }

    /// What the panel holds once a fetch has failed: what it held, with the
    /// failure as its warning.
    pub open spec fn failed(self, error: Error) -> ReceiveModel {
        ReceiveModel { warning: Some(error), ..self }
    }

    /// What the panel holds after `message`.
    pub open spec fn after(self, message: Message) -> ReceiveModel {
        match message {
            Message::ReceiveAddress(Ok(address)) => self.received(address, encoding(address)),
            Message::ReceiveAddress(Err(error)) => self.failed(error),
            _ => self,
        }
    }

    /// The screen for what the panel holds: the address and its QR code
    /// where there is an address, an empty body where there is none, and
    /// the warning, if any, in either case.
    pub open spec fn rendering<'a>(&'a self) -> Dashboard<'a> {
        Dashboard {
            menu: Menu::Receive,
            warning: self.warning,
            content: match self.address {
                Some(address) => Content::Receive { address: &address, qr_code: &self.qr_code->0 },
                None => Content::Empty,
            },
        }
    }
}

/// The receive panel. It asks for a new address when it becomes active and
/// then shows that address as text and as a QR code. A fetch that fails
/// leaves what is shown as it was and adds a warning.
///
/// An address from which no QR code can be built is not fatal: it is taken
/// as a failed fetch, with the encoder's reason as the warning.
#[derive(Debug)]
pub struct ReceivePanel {
    address: Option<Address>,
    qr_code: Option<QrState>,
    warning: Option<Error>,
}

impl ReceivePanel {
    /// Holds of every panel: a QR code is held exactly when an address is.
    #[verifier::type_invariant]
    spec fn well_formed(&self) -> bool {
        self.model().paired()
    }

    /// The address of the last fetch that succeeded.
    pub fn address(&self) -> (address: Option<&Address>)
        ensures
            match address {
                Some(a) => self.model().address == Some(*a),
                None => self.model().address is None,
            },
    {
        self.address.as_ref()
    }

    /// The QR code of the address.
    pub fn qr_code(&self) -> (qr_code: Option<&QrState>)
        ensures
            match qr_code {
                Some(q) => self.model().qr_code == Some(*q),
                None => self.model().qr_code is None,
            },
    {
        self.qr_code.as_ref()
    }

    /// The failure of the last fetch, if the last fetch failed.
    pub fn warning(&self) -> (warning: Option<Error>)
        ensures
            warning == self.model().warning,
    {
        self.warning
    }

    /// Takes in an address that came back, together with what encoding it
    /// gave. Callers hand in the encoding of `address`; `update` does.
    pub fn receive(&mut self, address: Address, encoded: Result<QrState, QrError>)
        ensures
            final(self).model() == old(self).model().received(address, encoded),
            final(self).model().paired(),
    {
        match encoded {
            Ok(qr_code) => {
                *self = ReceivePanel {
                    address: Some(address),
                    qr_code: Some(qr_code),
                    warning: None,
                };
            },
            Err(e) => {
                self.fail(Error::QrCode(e));
            },
        }
    }

    /// Takes in the failure of a fetch.
    pub fn fail(&mut self, error: Error)
        ensures
            final(self).model() == old(self).model().failed(error),
            final(self).model().paired(),
    {
        proof {
            use_type_invariant(&*self);
        }
        self.warning = Some(error);
    }
}

impl Default for ReceivePanel {
    /// Makes an empty panel.
    fn default() -> (panel: ReceivePanel)
        ensures
            panel.model() == ReceiveModel::empty(),
    {
        ReceivePanel { address: None, qr_code: None, warning: None }
    }
}

impl State for ReceivePanel {
    type Model = ReceiveModel;

    closed spec fn model(&self) -> ReceiveModel {
        ReceiveModel { address: self.address, qr_code: self.qr_code, warning: self.warning }
    }

    open spec fn understands(message: Message) -> bool {
        message is ReceiveAddress
    }

    open spec fn step(model: ReceiveModel, message: Message) -> (ReceiveModel, Option<Task>) {
        (model.after(message), None)
    }

    open spec fn rendering<'a>(model: &'a ReceiveModel, cache: &'a Cache) -> Dashboard<'a> {
        model.rendering()
    }

    fn view<'a>(&'a self, cache: &'a Cache) -> (tree: Dashboard<'a>) {
        proof {
            use_type_invariant(self);
        }
        match &self.address {
            Some(address) => Dashboard {
                menu: Menu::Receive,
                warning: self.warning,
                content: Content::Receive { address, qr_code: self.qr_code.as_ref().unwrap() },
            },
            None => Dashboard { menu: Menu::Receive, warning: self.warning, content: Content::Empty },
        }
    }

    fn update(&mut self, cache: &Cache, message: Message) -> (task: Option<Task>)
        ensures
            final(self).model() == old(self).model().after(message),
            final(self).model().paired(),
            task is None,
    {
        proof {
            use_type_invariant(&*self);
        }
        match message {
            Message::ReceiveAddress(Ok(address)) => {
                let encoded = encode(&address);
                self.receive(address, encoded);
            },
            Message::ReceiveAddress(Err(error)) => {
                self.fail(error);
            },
            _ => {},
        }
        None
    }

    fn load(&self) -> (task: Option<Task>)
        ensures
            task == Some(Task::GetNewAddress),
    {
        Some(Task::GetNewAddress)
    }
}

} // verus!
