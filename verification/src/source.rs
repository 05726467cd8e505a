//! Where the base state snapshot comes from: a live remote endpoint at a
//! given (or latest) block, or a previously captured local dump. A
//! snapshot-sourced state has no live endpoint, so it never triggers an
//! identity consistency check.

use vstd::prelude::*;

verus! {

/// The state source to run the dry-run against.
#[derive(Debug)]
pub enum State {
    /// Fetch the full keyed state from a live endpoint, at the given block
    /// reference or at the latest block when none is given.
    Live { uri: String, at: Option<String> },
    /// Load a previously captured local dump.
    Snap { path: String },
}

impl State {
    /// Whether the state comes from a live endpoint.
    pub fn is_live(&self) -> (b: bool)
        ensures
            b == (self is Live),
    {
        match self {
            State::Live { .. } => true,
            State::Snap { .. } => false,
        }
    }

    /// The live endpoint to cross-check identities against, present only
    /// for the live variant.
    pub fn live_uri(&self) -> (r: Option<&String>)
        ensures
            (match self {
                State::Live { uri, .. } => r matches Some(u) && u@ == uri@,
                State::Snap { .. } => r is None,
            }),
    {
        match self {
            State::Live { uri, .. } => Some(uri),
            State::Snap { .. } => None,
        }
    }
}

/// The command configuration: which state to run the dry-run against.
#[derive(Debug)]
pub struct OnRuntimeUpgradeCmd {
    pub state: State,
}

} // verus!
