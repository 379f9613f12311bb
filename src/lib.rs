//! A fixed-timestep animation engine for one actor on a tile grid: the
//! refresh accumulator, the Stopped/Moving movement state machine, and the
//! sprite-sheet lookup that turns the actor's pose into drawing commands.
pub mod engine;
pub mod game;
pub mod object;
pub mod sprite;
pub mod scene;
