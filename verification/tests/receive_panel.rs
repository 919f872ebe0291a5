use std::str::FromStr;

use bitcoin::util::address::{Payload, WitnessVersion};
use bitcoin::{Address, Network};
use iced::widget::qr_code;

use panel_state::cache::Cache;
use panel_state::daemon::{AddressInfo, DaemonError};
use panel_state::encoding::encode;
use panel_state::error::{Error, QrError};
use panel_state::message::{Menu, Message};
use panel_state::receive::ReceivePanel;
use panel_state::state::State;
use panel_state::task::Task;
use panel_state::view::Content;

const SEGWIT: &str = "bc1qw508d6qejxtdg4y5r3zarvary0c5xw7kv8f3t4";
const SEGWIT_URI: &str = "BITCOIN:BC1QW508D6QEJXTDG4Y5R3ZARVARY0C5XW7KV8F3T4";
const LEGACY: &str = "1BvBMSEYstWetqTFn5Au4m4GFg7xJaNVN2";
const LEGACY_URI: &str = "bitcoin:1BvBMSEYstWetqTFn5Au4m4GFg7xJaNVN2";

fn address(text: &str) -> Address {
    Address::from_str(text).unwrap()
}

fn grid(data: &str) -> String {
    format!("{:?}", qr_code::State::new(data).unwrap())
}

fn shown(panel: &ReceivePanel) -> Option<String> {
    panel.qr_code().map(|qr| format!("{:?}", qr))
}

fn oversized() -> Address {
    Address {
        payload: Payload::WitnessProgram { version: WitnessVersion::V0, program: vec![0u8; 4000] },
        network: Network::Bitcoin,
    }
}

const CACHE: Cache = Cache { blockheight: 0 };

#[test]
fn fresh_panel_is_empty() {
    let panel = ReceivePanel::default();
    assert_eq!(panel.address(), None);
    assert!(panel.qr_code().is_none());
    assert_eq!(panel.warning(), None);
}

#[test]
fn load_asks_for_one_new_address() {
    let panel = ReceivePanel::default();
    assert_eq!(panel.load(), Some(Task::GetNewAddress));
    assert_eq!(panel.subscription(), None);
}

#[test]
fn successful_fetch_fills_the_panel() {
    let mut panel = ReceivePanel::default();
    let task = panel.load().unwrap();
    let message = task.complete(Ok(AddressInfo { address: address(SEGWIT) }));
    let follow_up = panel.update(&CACHE, message);
    assert_eq!(follow_up, None);
    assert_eq!(panel.address(), Some(&address(SEGWIT)));
    assert_eq!(shown(&panel), Some(grid(SEGWIT_URI)));
    assert_eq!(panel.warning(), None);
}

#[test]
fn failed_fetch_on_empty_panel_sets_only_the_warning() {
    let mut panel = ReceivePanel::default();
    let task = panel.load().unwrap();
    let message = task.complete(Err(DaemonError::NetworkUnavailable));
    let follow_up = panel.update(&CACHE, message);
    assert_eq!(follow_up, None);
    assert_eq!(panel.address(), None);
    assert!(panel.qr_code().is_none());
    assert_eq!(panel.warning(), Some(Error::Daemon(DaemonError::NetworkUnavailable)));
}

#[test]
fn failed_fetch_keeps_the_loaded_address() {
    let mut panel = ReceivePanel::default();
    panel.update(&CACHE, Message::ReceiveAddress(Ok(address(SEGWIT))));
    let task = panel.load().unwrap();
    let message = task.complete(Err(DaemonError::Timeout));
    panel.update(&CACHE, message);
    assert_eq!(panel.address(), Some(&address(SEGWIT)));
    assert_eq!(shown(&panel), Some(grid(SEGWIT_URI)));
    assert_eq!(panel.warning(), Some(Error::Daemon(DaemonError::Timeout)));
}

#[test]
fn successful_fetch_clears_an_earlier_warning() {
    let mut panel = ReceivePanel::default();
    panel.update(&CACHE, Message::ReceiveAddress(Err(Error::Daemon(DaemonError::Timeout))));
    assert!(panel.warning().is_some());
    panel.update(&CACHE, Message::ReceiveAddress(Ok(address(LEGACY))));
    assert_eq!(panel.warning(), None);
    assert_eq!(panel.address(), Some(&address(LEGACY)));
    assert_eq!(shown(&panel), Some(grid(LEGACY_URI)));
}

#[test]
fn a_new_address_replaces_the_old_one() {
    let mut panel = ReceivePanel::default();
    panel.update(&CACHE, Message::ReceiveAddress(Ok(address(SEGWIT))));
    panel.update(&CACHE, Message::ReceiveAddress(Ok(address(LEGACY))));
    assert_eq!(panel.address(), Some(&address(LEGACY)));
    assert_eq!(shown(&panel), Some(grid(LEGACY_URI)));
    assert_ne!(grid(LEGACY_URI), grid(SEGWIT_URI));
}

#[test]
fn other_messages_change_nothing() {
    let mut panel = ReceivePanel::default();
    for message in [Message::Tick, Message::Menu(Menu::Home), Message::Menu(Menu::Receive)] {
        assert_eq!(panel.update(&CACHE, message), None);
        assert_eq!(panel.address(), None);
        assert!(panel.qr_code().is_none());
        assert_eq!(panel.warning(), None);
    }
    panel.update(&CACHE, Message::ReceiveAddress(Ok(address(SEGWIT))));
    panel.update(&CACHE, Message::ReceiveAddress(Err(Error::Daemon(DaemonError::Unexpected))));
    for message in [Message::Tick, Message::Menu(Menu::Home), Message::Menu(Menu::Receive)] {
        assert_eq!(panel.update(&CACHE, message), None);
        assert_eq!(panel.address(), Some(&address(SEGWIT)));
        assert_eq!(shown(&panel), Some(grid(SEGWIT_URI)));
        assert_eq!(panel.warning(), Some(Error::Daemon(DaemonError::Unexpected)));
    }
}

#[test]
fn qr_code_is_there_exactly_with_the_address() {
    let messages = vec![
        Message::Tick,
        Message::ReceiveAddress(Err(Error::Daemon(DaemonError::Timeout))),
        Message::ReceiveAddress(Ok(oversized())),
        Message::ReceiveAddress(Ok(address(SEGWIT))),
        Message::Menu(Menu::Receive),
        Message::ReceiveAddress(Ok(oversized())),
        Message::ReceiveAddress(Err(Error::Daemon(DaemonError::NetworkUnavailable))),
        Message::ReceiveAddress(Ok(address(LEGACY))),
    ];
    let mut panel = ReceivePanel::default();
    for message in messages {
        panel.update(&CACHE, message);
        assert_eq!(panel.qr_code().is_some(), panel.address().is_some());
    }
}

#[test]
fn an_address_too_long_to_encode_becomes_a_warning() {
    assert_eq!(encode(&oversized()).err(), Some(QrError::DataTooLong));
    let mut panel = ReceivePanel::default();
    panel.update(&CACHE, Message::ReceiveAddress(Ok(oversized())));
    assert_eq!(panel.address(), None);
    assert!(panel.qr_code().is_none());
    assert_eq!(panel.warning(), Some(Error::QrCode(QrError::DataTooLong)));

    panel.update(&CACHE, Message::ReceiveAddress(Ok(address(SEGWIT))));
    panel.update(&CACHE, Message::ReceiveAddress(Ok(oversized())));
    assert_eq!(panel.address(), Some(&address(SEGWIT)));
    assert_eq!(shown(&panel), Some(grid(SEGWIT_URI)));
    assert_eq!(panel.warning(), Some(Error::QrCode(QrError::DataTooLong)));
}

#[test]
fn encode_is_the_qr_code_of_the_uri() {
    let witness = encode(&address(SEGWIT)).unwrap();
    assert_eq!(format!("{:?}", witness), grid(SEGWIT_URI));
    assert_ne!(format!("{:?}", witness), grid(SEGWIT));
    let legacy = encode(&address(LEGACY)).unwrap();
    assert_eq!(format!("{:?}", legacy), grid(LEGACY_URI));
    assert_ne!(format!("{:?}", legacy), grid(LEGACY));
}

#[test]
fn receive_takes_the_encoding_it_is_given() {
    let mut panel = ReceivePanel::default();
    panel.receive(address(SEGWIT), Err(QrError::InvalidCharacter));
    assert_eq!(panel.address(), None);
    assert!(panel.qr_code().is_none());
    assert_eq!(panel.warning(), Some(Error::QrCode(QrError::InvalidCharacter)));
    panel.receive(address(SEGWIT), Ok(qr_code::State::new("anything").unwrap()));
    assert_eq!(panel.address(), Some(&address(SEGWIT)));
    assert_eq!(shown(&panel), Some(grid("anything")));
    assert_eq!(panel.warning(), None);
    panel.fail(Error::Daemon(DaemonError::Timeout));
    assert_eq!(panel.address(), Some(&address(SEGWIT)));
    assert_eq!(panel.warning(), Some(Error::Daemon(DaemonError::Timeout)));
}

#[test]
fn empty_panel_renders_an_empty_body() {
    let panel = ReceivePanel::default();
    let tree = panel.view(&CACHE);
    assert_eq!(tree.menu, Menu::Receive);
    assert_eq!(tree.warning, None);
    assert!(matches!(tree.content, Content::Empty));
}

#[test]
fn first_failure_renders_only_the_warning() {
    let mut panel = ReceivePanel::default();
    panel.update(&CACHE, Message::ReceiveAddress(Err(Error::Daemon(DaemonError::Timeout))));
    let tree = panel.view(&CACHE);
    assert_eq!(tree.menu, Menu::Receive);
    assert_eq!(tree.warning, Some(Error::Daemon(DaemonError::Timeout)));
    assert!(matches!(tree.content, Content::Empty));
}

#[test]
fn loaded_panel_renders_address_and_qr_code_under_a_warning() {
    let mut panel = ReceivePanel::default();
    panel.update(&CACHE, Message::ReceiveAddress(Ok(address(SEGWIT))));
    panel.update(&CACHE, Message::ReceiveAddress(Err(Error::Daemon(DaemonError::Timeout))));
    let first = Cache { blockheight: 1 };
    let second = Cache { blockheight: 800_000 };
    for cache in [first, second] {
        let tree = panel.view(&cache);
        assert_eq!(tree.menu, Menu::Receive);
        assert_eq!(tree.warning, Some(Error::Daemon(DaemonError::Timeout)));
        match tree.content {
            Content::Receive { address: shown_address, qr_code } => {
                assert_eq!(shown_address, &address(SEGWIT));
                assert_eq!(format!("{:?}", qr_code), grid(SEGWIT_URI));
            }
            Content::Empty => panic!("the address is not shown"),
        }
    }
}
