//! Logic core of a grid-based snake game: movement of a multi-segment body on
//! an integer lattice, food spawning, growth on eating and self-collision.
//!
//! Each module states its rules as spec functions over plain values; the
//! executable items below are proved against them.

pub mod body;
pub mod collision;
pub mod direction;
pub mod position;
pub mod session;

pub use body::advance;
pub use collision::{check_for_death, eat_food, PLACEHOLDER_COORD};
pub use direction::{intent_from_keys, opposite_of, set_intent, Direction};
pub use position::GridPosition;
pub use session::{EntityKind, GameConfig, GameSession, SessionModel, SessionSnapshot};
