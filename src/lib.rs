//! A grid-based snake game core: the tile map, the per-tick movement of the
//! snake and the wall and self collision rules that end a game.
pub mod grid;
pub mod snake;
pub mod game;
