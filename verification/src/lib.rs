pub mod combat;
pub mod kinds;
pub mod levels;
pub mod generation;
pub mod platform;
pub mod player;
pub mod progress;
mod rng;
