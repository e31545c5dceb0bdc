//! A bridge between a host window and an embedded media engine: it plans the
//! native surface, picks a GPU backend by trying candidates in order, keeps at
//! most one playback session, turns transport controls into engine commands
//! and decides when playback state is worth reporting.

pub mod backend;
pub mod command;
pub mod driver;
pub mod error;
pub mod init;
pub mod launcher;
pub mod lifecycle;
pub mod port;
pub mod quality;
pub mod search;
pub mod state;
pub mod surface;
pub mod sync;
pub mod text;
pub mod tracks;
