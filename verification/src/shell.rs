//! The owner of the panel on screen. It swaps the panel on navigation and
//! sees to it that what was started for an earlier panel never reaches a
//! later one.
//!
//! Every panel that comes on screen gets an epoch of its own. Work issued
//! for it carries that epoch, and so does the message that comes of it. A
//! message with another epoch than the current one is dropped.

use vstd::prelude::*;

use crate::cache::Cache;
use crate::message::{Menu, Message};
use crate::panel::{Panel, PanelModel};
use crate::state::{Home, State};
use crate::task::{Subscription, Task};
use crate::view::Dashboard;

verus! {

/// What a call hands back to the loop: the task to perform, if any, and the
/// epoch under which to deliver the message that comes of it.
#[derive(Debug, Clone, Copy, PartialEq, Eq, Structural)]
pub struct Issued {
    pub epoch: u64,
    pub task: Option<Task>,
}

/// What a shell holds, as a mathematical value.
pub struct ShellModel {
    /// The panel on screen.
    pub panel: PanelModel,
    /// The epoch of that panel.
    pub epoch: u64,
}

impl ShellModel {
    /// The shell at start: the home panel, in the first epoch.
    pub open spec fn start() -> ShellModel {
        ShellModel { panel: PanelModel::Home, epoch: 0 }
    }

    /// The epoch after this one. It differs from this one.
    pub open spec fn next_epoch(self) -> u64 {
        if self.epoch == u64::MAX {
            0
        } else {
            (self.epoch + 1) as u64
        }
    }

    /// The shell after navigation to `menu`, and what it issues: a fresh
    /// panel in a new epoch, and the work that the panel starts with.
    pub open spec fn navigated(self, menu: Menu) -> (ShellModel, Issued) {
        let panel = PanelModel::fresh(menu);
        let epoch = self.next_epoch();
        (ShellModel { panel, epoch }, Issued { epoch, task: panel.on_entry() })
    }

    /// The shell after a message that arrived under `epoch`, and what it
    /// issues. A message of another epoch changes nothing and issues
    /// nothing. Of the current epoch, a menu entry navigates, and any other
    /// message goes to the panel on screen.
    pub open spec fn after(self, epoch: u64, message: Message) -> (ShellModel, Issued) {
        if epoch != self.epoch {
            (self, Issued { epoch: self.epoch, task: None })
        } else {
            match message {
                Message::Menu(menu) => self.navigated(menu),
                _ => {
                    let (panel, task) = self.panel.after(message);
                    (ShellModel { panel, epoch: self.epoch }, Issued { epoch: self.epoch, task })
                },
            }
        }
    }
}

/// The owner of the panel on screen.
#[derive(Debug)]
pub struct Shell {
    panel: Panel,
    epoch: u64,
}

impl Shell {
    /// What this shell holds.
    pub closed spec fn model(&self) -> ShellModel {
        ShellModel { panel: self.panel.model(), epoch: self.epoch }
    }

    /// Makes a shell that shows the home panel.
    pub fn new() -> (shell: Shell)
        ensures
            shell.model() == ShellModel::start(),
    {
        Shell { panel: Panel::from(Home {  }), epoch: 0 }
    }

    /// The epoch of the panel on screen.
    pub fn epoch(&self) -> (epoch: u64)
        ensures
            epoch == self.model().epoch,
    {
        self.epoch
    }

    /// The panel on screen.
    pub fn panel(&self) -> (panel: &Panel)
        ensures
            panel.model() == self.model().panel,
    {
        &self.panel
    }

    /// Puts the panel of `menu` on screen in place of the current one and
    /// returns the work that it starts with.
    pub fn navigate(&mut self, menu: Menu) -> (issued: Issued)
        ensures
            (final(self).model(), issued) == old(self).model().navigated(menu),
            final(self).model().epoch != old(self).model().epoch,
    {
        let panel = Panel::open(menu);
        let task = panel.load();
        let epoch = self.epoch.wrapping_add(1);
        self.panel = panel;
        self.epoch = epoch;
        Issued { epoch, task }
    }

    /// Takes one message that arrived under `epoch`.
    pub fn update(&mut self, cache: &Cache, epoch: u64, message: Message) -> (issued: Issued)
        ensures
            (final(self).model(), issued) == old(self).model().after(epoch, message),
            epoch != old(self).model().epoch ==> final(self).model() == old(self).model()
                && issued.task is None,
    {
        if epoch != self.epoch {
            return Issued { epoch: self.epoch, task: None };
        }
        match message {
            Message::Menu(menu) => self.navigate(menu),
            _ => {
                let task = self.panel.update(cache, message);
                Issued { epoch: self.epoch, task }
            },
        }
    }

    /// Builds the screen of the panel on screen.
    pub fn view<'a>(&'a self, cache: &'a Cache) -> (tree: Dashboard<'a>)
        ensures
            tree == Panel::rendering(&self.model().panel, cache),
    {
        self.panel.view(cache)
    }

    /// The sources of messages that the panel on screen wants open.
    pub fn subscription(&self) -> (sources: Option<Subscription>)
        ensures
            sources is None,
    {
        self.panel.subscription()
    }
}

} // verus!
