//! What every panel can do, and the simplest panel.

use vstd::prelude::*;

use crate::cache::Cache;
use crate::message::{Menu, Message};
use crate::task::{Subscription, Task};
use crate::view::{Content, Dashboard};

verus! {

/// A panel: state of its own, a pure rendering of it, and a transition for
/// every message.
///
/// Contracts speak of a panel through its `Model`, the mathematical value of
/// what it holds. `step` is the transition as a function; `update` carries
/// it out. `rendering` is the screen as a function; `view` builds it.
pub trait State: Sized {
    /// What a panel of this kind holds.
    type Model;

    /// What this panel holds.
    spec fn model(&self) -> Self::Model;

    /// Whether panels of this kind react to `message` at all.
    spec fn understands(message: Message) -> bool;

    /// What the panel holds after `message`, and the task it then asks for.
    spec fn step(model: Self::Model, message: Message) -> (Self::Model, Option<Task>);

    /// The screen for what the panel holds and what the cache knows.
    spec fn rendering<'a>(model: &'a Self::Model, cache: &'a Cache) -> Dashboard<'a>;

    /// Builds the screen. Total: there is a screen for whatever the panel
    /// holds.
    fn view<'a>(&'a self, cache: &'a Cache) -> (tree: Dashboard<'a>)
        ensures
            tree == Self::rendering(&self.model(), cache),
    ;

    /// Takes one message. A failure that arrives in a message is stored, not
    /// raised. A message that this kind of panel does not understand changes
    /// nothing and asks for nothing.
    fn update(&mut self, cache: &Cache, message: Message) -> (task: Option<Task>)
        ensures
            (final(self).model(), task) == Self::step(old(self).model(), message),
            !Self::understands(message) ==> final(self).model() == old(self).model() && task
                is None,
    ;

    /// The sources of messages to keep open while the panel is active.
    /// Unless a panel says otherwise there are none.
    fn subscription(&self) -> (sources: Option<Subscription>)
        default_ensures
            sources is None,
    {
        None
    }

    /// The work to start when the panel becomes active. Unless a panel says
    /// otherwise there is none.
    fn load(&self) -> (task: Option<Task>)
        default_ensures
            task is None,
    {
        None
    }
}

/// The home panel. It holds nothing, shows an empty dashboard and lets every
/// message pass.
#[derive(Debug, Clone, Copy, PartialEq, Eq, Structural)]
pub struct Home {}

impl State for Home {
    type Model = ();

    open spec fn model(&self) -> () {
        ()
    }

    open spec fn understands(message: Message) -> bool {
        false
    }

    open spec fn step(model: (), message: Message) -> ((), Option<Task>) {
        ((), None)
    }

    open spec fn rendering<'a>(model: &'a (), cache: &'a Cache) -> Dashboard<'a> {
        Dashboard { menu: Menu::Home, warning: None, content: Content::Empty }
    }

    fn view<'a>(&'a self, cache: &'a Cache) -> (tree: Dashboard<'a>) {
        Dashboard { menu: Menu::Home, warning: None, content: Content::Empty }
    }

    fn update(&mut self, cache: &Cache, message: Message) -> (task: Option<Task>)
        ensures
            *final(self) == *old(self),
    {
        None
    }
}

} // verus!
