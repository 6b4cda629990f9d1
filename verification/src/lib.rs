//! Chain ownership and consensus-round model: who may propose a block in
//! which round, how rounds escalate when no proposal is finalized, and how
//! long each round lasts.

pub mod ownership;
pub mod round;
pub mod time_delta;
