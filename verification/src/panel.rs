//! The panels there are, as one type. The set is closed: a value is one of
//! them, and every operation goes to the panel that it is.

use vstd::prelude::*;
use vstd::std_specs::convert::FromSpecImpl;

use crate::cache::Cache;
use crate::message::{Menu, Message};
use crate::receive::{ReceiveModel, ReceivePanel};
use crate::state::{Home, State};
use crate::task::{Subscription, Task};
use crate::view::Dashboard;

verus! {

/// What a panel holds, whichever panel it is.
pub enum PanelModel {
    Home,
    Receive(ReceiveModel),
}

impl PanelModel {
    /// The panel that a menu entry opens, before any message.
    pub open spec fn fresh(menu: Menu) -> PanelModel {
        match menu {
            Menu::Home => PanelModel::Home,
            Menu::Receive => PanelModel::Receive(ReceiveModel::empty()),
        }
    }

    /// The menu entry that this panel belongs to.
    pub open spec fn menu(self) -> Menu {
        match self {
            PanelModel::Home => Menu::Home,
            PanelModel::Receive(_) => Menu::Receive,
        }
    }

    /// The work that the panel starts when it becomes active.
    pub open spec fn on_entry(self) -> Option<Task> {
        match self {
            PanelModel::Home => None,
            PanelModel::Receive(_) => Some(Task::GetNewAddress),
        }
    }

    /// What the panel holds after `message`, and the task it then asks for:
    /// the transition of the panel that it is.
    pub open spec fn after(self, message: Message) -> (PanelModel, Option<Task>) {
        match self {
            PanelModel::Home => (PanelModel::Home, Home::step((), message).1),
            PanelModel::Receive(model) => {
                let (next, task) = ReceivePanel::step(model, message);
                (PanelModel::Receive(next), task)
            },
        }
    }
}

/// The panel that is on screen.
#[derive(Debug)]
pub enum Panel {
    Home(Home),
    Receive(ReceivePanel),
}

impl From<Home> for Panel {
    fn from(s: Home) -> (panel: Panel) {
        Panel::Home(s)
    }
}

impl FromSpecImpl<Home> for Panel {
    open spec fn obeys_from_spec() -> bool {
        true
    }

    open spec fn from_spec(s: Home) -> Panel {
        Panel::Home(s)
    }
}

impl From<ReceivePanel> for Panel {
    fn from(s: ReceivePanel) -> (panel: Panel) {
        Panel::Receive(s)
    }
}

impl FromSpecImpl<ReceivePanel> for Panel {
    open spec fn obeys_from_spec() -> bool {
        true
    }

    open spec fn from_spec(s: ReceivePanel) -> Panel {
        Panel::Receive(s)
    }
}

impl Panel {
    /// Makes the panel that a menu entry opens.
    pub fn open(menu: Menu) -> (panel: Panel)
        ensures
            panel.model() == PanelModel::fresh(menu),
    {
        match menu {
            Menu::Home => Panel::from(Home {  }),
            Menu::Receive => Panel::from(ReceivePanel::default()),
        }
    }
}

impl State for Panel {
    type Model = PanelModel;

    open spec fn model(&self) -> PanelModel {
        match self {
            Panel::Home(_) => PanelModel::Home,
            Panel::Receive(panel) => PanelModel::Receive(panel.model()),
        }
    }

    open spec fn understands(message: Message) -> bool {
        Home::understands(message) || ReceivePanel::understands(message)
    }

    open spec fn step(model: PanelModel, message: Message) -> (PanelModel, Option<Task>) {
        model.after(message)
    }

    open spec fn rendering<'a>(model: &'a PanelModel, cache: &'a Cache) -> Dashboard<'a> {
        match model {
            PanelModel::Home => Home::rendering(&(), cache),
            PanelModel::Receive(model) => ReceivePanel::rendering(model, cache),
        }
    }

    fn view<'a>(&'a self, cache: &'a Cache) -> (tree: Dashboard<'a>) {
        match self {
            Panel::Home(panel) => panel.view(cache),
            Panel::Receive(panel) => panel.view(cache),
        }
    }

    fn update(&mut self, cache: &Cache, message: Message) -> (task: Option<Task>) {
        match self {
            Panel::Home(panel) => panel.update(cache, message),
            Panel::Receive(panel) => panel.update(cache, message),
        }
    }

    fn subscription(&self) -> (sources: Option<Subscription>)
        ensures
            sources is None,
    {
        match self {
            Panel::Home(panel) => panel.subscription(),
            Panel::Receive(panel) => panel.subscription(),
        }
    }

    fn load(&self) -> (task: Option<Task>)
        ensures
            task == self.model().on_entry(),
    {
        match self {
            Panel::Home(panel) => panel.load(),
            Panel::Receive(panel) => panel.load(),
        }
    }
}

} // verus!
