pub mod constants;
pub mod coordinate;
pub mod direction;
pub mod food;
pub mod game;
pub mod input;
pub mod music;
pub mod snake;
