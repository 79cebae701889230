//! Turn-state ingestion and entity classification for a two-player
//! base-defense contest: typed classification of raw wire codes, entity and
//! base records built from line tokens, a per-turn ingestion state machine,
//! and the per-turn decision step that emits one command per controlled unit.

pub mod classify;
pub mod decide;
pub mod entity;
pub mod parse;
pub mod turn;
