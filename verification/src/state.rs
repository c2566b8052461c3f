//! The state shared by all request handlers.
//!
//! It is handed to every handler, on whichever worker the handler runs, so
//! whatever it holds is read concurrently. It holds nothing yet. A resource
//! added here later has to bring its own synchronisation if it can change.

use crate::config::Configuration;
use vstd::prelude::*;
use vstd::std_specs::convert::FromSpecImpl;

verus! {

/// The shared application state. All values are equal: there is nothing in
/// it that handlers could disagree about.
#[derive(Clone, Copy, Debug, PartialEq, Eq, Structural)]
pub struct AppState {}

impl From<Configuration> for AppState {
    /// Builds the shared state for a server with the given configuration.
    fn from(_value: Configuration) -> (state: Self) {
        Self {  }
    }
}

impl FromSpecImpl<Configuration> for AppState {
    open spec fn obeys_from_spec() -> bool {
        true
    }

    open spec fn from_spec(_value: Configuration) -> Self {
        AppState {  }
    }
}

} // verus!
