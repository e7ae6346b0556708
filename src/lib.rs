//! A dealer-free card draw: players commit to random contributions, fold them
//! into a shared seed, draw a card each with a verifiable random function, and
//! anyone can check a claimed winner from public data alone.

pub mod encoding;
pub mod primitives;
pub mod round;
pub mod winner;
pub mod claim;
