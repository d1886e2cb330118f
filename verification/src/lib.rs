//! Verified core of a multi-volume file finder.

pub mod decimal;
pub mod engine;
pub mod engine_proofs;
pub mod finder;
pub mod menu;
pub mod progress;
pub mod search;
pub mod system_info;
pub mod text;
pub mod timer;
