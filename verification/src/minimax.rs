//! Game-tree search: the two sides, scores, what a position has to offer, and
//! the search itself.

pub mod player;
pub mod search;
pub mod state;
pub mod value;

pub use self::player::Player;
pub use self::search::{alpha_beta, best_move, minimax};
pub use self::state::State;
pub use self::value::{Extended, Value};
