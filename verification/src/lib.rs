use vstd::prelude::*;

pub mod client;
pub mod config;
pub mod crawler;
pub mod critter;
pub mod defines;
pub mod draw_geometry;
pub mod engine;
pub mod formula;
pub mod overlay;
pub mod params;
pub mod text;

verus! {
} // verus!
