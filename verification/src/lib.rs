//! Verified core of a voice-chat text-to-speech bot.
//!
//! The library tracks, per guild, which voice channel the bot occupies and
//! how long it has been idle there; it dispatches the user commands `join`,
//! `leave`, `skip`, `say` and `languages` against that state; and it builds
//! speech-synthesis requests from a catalog of provider voices. Everything
//! here is ordinary sequential logic with contracts; the chat platform, the
//! voice transport and the synthesis provider are driven by a thin unverified
//! shell that feeds plain values in and carries the decided actions out.

pub mod commands;
pub mod say;
pub mod session;
pub mod text;
pub mod voices;
