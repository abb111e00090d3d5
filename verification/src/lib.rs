//! A small collection of retro games: the snake engine, the menu's mode
//! machine and what each frame draws, with every rule stated and proved.

pub mod clock;
pub mod grid;
pub mod input;
pub mod laws;
pub mod placer;
pub mod render;
pub mod shell;
pub mod snake;
pub mod stubs;
