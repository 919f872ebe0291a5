//! What holds of the panels whatever messages arrive, stated over their
//! models and proved.

use vstd::prelude::*;

use bitcoin::Address;

use crate::cache::Cache;
use crate::encoding::encoding;
use crate::error::Error;
use crate::message::{Menu, Message};
use crate::receive::{ReceiveModel, ReceivePanel};
use crate::shell::ShellModel;
use crate::state::{Home, State};
use crate::view::{Content, Dashboard};

verus! {

/// What a receive panel holds after it has taken `messages` one by one, in
/// order, starting from `model`.
pub open spec fn run(model: ReceiveModel, messages: Seq<Message>) -> ReceiveModel
    decreases messages.len(),
{
    if messages.len() == 0 {
        model
    } else {
        run(model, messages.drop_last()).after(messages.last())
    }
}

/// One message keeps the pairing of address and QR code, and keeps the QR
/// code the encoding of the address.
pub proof fn step_keeps_pairing(model: ReceiveModel, message: Message)
    ensures
        model.paired() ==> model.after(message).paired(),
        model.paired() && model.faithful() ==> model.after(message).faithful(),
{
}

/// Whatever messages an empty receive panel is given, after each of them it
/// has a QR code exactly when it has an address, and that QR code is the
/// encoding of that address.
pub proof fn pairing_holds_after_every_message(messages: Seq<Message>, n: int)
    requires
        0 <= n <= messages.len(),
    ensures
        run(ReceiveModel::empty(), messages.take(n)).paired(),
        run(ReceiveModel::empty(), messages.take(n)).faithful(),
    decreases n,
{
    if n > 0 {
        pairing_holds_after_every_message(messages, n - 1);
        let prefix = messages.take(n);
        assert(prefix.drop_last() == messages.take(n - 1));
        step_keeps_pairing(run(ReceiveModel::empty(), messages.take(n - 1)), prefix.last());
    }
}

/// A fetch that succeeds, with an address that encodes, clears the warning
/// whatever the panel held, and puts the address and its QR code in place.
pub proof fn success_clears_warning(model: ReceiveModel, address: Address)
    requires
        encoding(address) is Ok,
    ensures
        model.after(Message::ReceiveAddress(Ok(address))).warning is None,
        model.after(Message::ReceiveAddress(Ok(address))).address == Some(address),
        Ok::<_, crate::error::QrError>(model.after(Message::ReceiveAddress(Ok(address))).qr_code->0)
            == encoding(address),
        model.after(Message::ReceiveAddress(Ok(address))).qr_code is Some,
{
}

/// A fetch that fails leaves address and QR code as they were and sets the
/// warning to the failure.
pub proof fn failure_keeps_address(model: ReceiveModel, error: Error)
    ensures
        model.after(Message::ReceiveAddress(Err(error))).address == model.address,
        model.after(Message::ReceiveAddress(Err(error))).qr_code == model.qr_code,
        model.after(Message::ReceiveAddress(Err(error))).warning == Some(error),
{
}

/// An address that does not encode is taken as a failed fetch: address and
/// QR code stay, and the warning names the reason.
pub proof fn unencodable_address_keeps_address(model: ReceiveModel, address: Address)
    requires
        encoding(address) is Err,
    ensures
        model.after(Message::ReceiveAddress(Ok(address))).address == model.address,
        model.after(Message::ReceiveAddress(Ok(address))).qr_code == model.qr_code,
        model.after(Message::ReceiveAddress(Ok(address))).warning == Some(
            Error::QrCode(encoding(address)->Err_0),
        ),
{
}

/// A message that is no result of a fetch leaves a receive panel as it was,
/// field by field, and asks for nothing.
pub proof fn other_messages_change_nothing(model: ReceiveModel, message: Message)
    requires
        !(message is ReceiveAddress),
    ensures
        model.after(message) == model,
        ReceivePanel::step(model, message) == (model, None::<crate::task::Task>),
{
}

/// The home panel takes every message without change and without a task,
/// and its screen is the same whatever came before and whatever the cache
/// holds.
pub proof fn home_ignores_everything(message: Message, cache: Cache, other: Cache)
    ensures
        Home::step((), message) == ((), None::<crate::task::Task>),
        !Home::understands(message),
        Home::rendering(&(), &cache) == Home::rendering(&(), &other),
        Home::rendering(&(), &cache) == (Dashboard {
            menu: Menu::Home,
            warning: None,
            content: Content::Empty,
        }),
{
}

/// What a receive panel shows does not depend on the cache, and an address
/// is shown whenever there is one, warning or not.
pub proof fn receive_screen(model: ReceiveModel, cache: Cache, other: Cache)
    ensures
        ReceivePanel::rendering(&model, &cache) == ReceivePanel::rendering(&model, &other),
        ReceivePanel::rendering(&model, &cache).warning == model.warning,
        model.address is Some <==> ReceivePanel::rendering(&model, &cache).content is Receive,
        model.address is None <==> ReceivePanel::rendering(&model, &cache).content is Empty,
{
}

/// Navigation always starts a new epoch, so what was issued for the panel
/// that left is dropped when it comes back: it changes nothing and issues
/// nothing.
pub proof fn superseded_results_are_dropped(shell: ShellModel, menu: Menu, late: Message)
    ensures
        shell.navigated(menu).0.epoch != shell.epoch,
        shell.navigated(menu).0.after(shell.epoch, late).0 == shell.navigated(menu).0,
        shell.navigated(menu).0.after(shell.epoch, late).1.task is None,
{
}

} // verus!
