//! The part of the bridge's type syntax that instantiation bookkeeping reads.

pub mod instantiate;
pub mod types;
