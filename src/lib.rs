//! Mirrors the locally playing media track onto a presence peer: the
//! track and playback-state model, the exclusion filter, the payload
//! builder, the presence-session retry policy and the polling loop's
//! change detection.

pub mod app;
pub mod session;
mod span;
pub mod config;
pub mod payload;
pub mod sources;
pub mod state;
pub mod text;
pub mod track;

pub use span::Span;
