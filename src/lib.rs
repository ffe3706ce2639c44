//! Core of a one-way directory synchronizer: delta classification, per-file
//! decisions, exclusion, orphan safety, transfer bookkeeping, copy-engine
//! arithmetic and volume tracking, each stated and proved with Verus.

pub mod text;
pub mod hash;
pub mod clock;
pub mod paths;
pub mod error;
pub mod delta;
pub mod options;
pub mod exclude;
pub mod scan;
pub mod transfer_state;
pub mod plan;
pub mod copy;
pub mod volume;
pub mod drive_info;
pub mod launch_agent;
pub mod security;
pub mod tray;
