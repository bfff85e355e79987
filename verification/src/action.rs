//! What the application is asked to do next.

use vstd::prelude::*;
use crate::session::GameId;

verus! {

/// A request that the event loop handles, raised by a key, the clock, the
/// terminal or a component.
#[derive(Debug, Clone, PartialEq, Eq)]
pub enum Action {
    Tick,
    Render,
    Resize(u16, u16),
    Suspend,
    Resume,
    Back,
    Quit,
    ClearScreen,
    Error(String),
    Help,
    OpenGame(GameId),
    CloseGame,
}

} // verus!
