pub mod board;
pub mod snake;
pub mod food;
pub mod game;
