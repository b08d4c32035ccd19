pub mod grid;
pub mod input;
pub mod map;
