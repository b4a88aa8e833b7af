pub mod critter;
pub mod item;
pub mod string;
pub mod state;
