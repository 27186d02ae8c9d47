//! A grid-based snake game core: the snake's movement and collision rules,
//! apple placement, the tick gate, the game's state machine and a
//! selectable-list menu model.

pub mod point;
pub mod snake;
pub mod apple;
pub mod tick;
pub mod game;
pub mod menu;
pub mod scores;
pub mod scene;
