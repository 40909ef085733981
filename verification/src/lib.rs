//! Verified game rules for a wave-survival spell game: combat resolution,
//! targeting radar, spell upgrades, long-term progression, level-up choices,
//! animation frames, level chunks and asset loading states.

pub mod random;
pub mod combat;
pub mod radar;
pub mod spells;
pub mod upgrades;
pub mod prog;
pub mod levelup;
pub mod magic;
pub mod animation;
pub mod movement;
pub mod chunks;
pub mod assets;
pub mod enemy;
