//! The entities that a response holds.

pub mod creator;
pub mod level;
pub mod song;
