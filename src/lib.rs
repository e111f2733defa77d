//! Runtime core of a voice/music chat bot: typed interaction contexts, event
//! routing, the per-guild player state and the audio filter model, with the
//! small text and sequence helpers that the commands share.

pub mod context;
pub mod dispatch;
pub mod front_door;

pub mod filter;
pub mod player;

pub mod error;
pub mod misc;

pub mod color;
pub mod sequence;
pub mod text;
pub mod timestamp;
