//! Deterministic game rules of a small tower-defense village game:
//! seeding, chunk streaming, waves, economy, input state machines.
pub mod seeds;
pub mod random;
pub mod grid;
pub mod streaming;
pub mod launch;
pub mod economy;
pub mod combat;
pub mod waves;
pub mod controls;
pub mod building;
pub mod upgrades;
pub mod content;
pub mod text;
pub mod tunables;
