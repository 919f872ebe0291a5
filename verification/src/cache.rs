//! The snapshot that every panel may read while it renders.

use vstd::prelude::*;

verus! {

/// What the application last learned from the daemon. It is refreshed
/// outside the panels, which only ever read it.
#[derive(Debug, Clone, Copy, PartialEq, Eq, Structural)]
pub struct Cache {
    /// Height of the chain tip.
    pub blockheight: i32,
}

} // verus!
