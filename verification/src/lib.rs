//! Core of a mail-watching background agent: an OAuth2 session with PKCE and
//! a loopback redirect, a deduplicating mail poller, and a single-slot
//! notification queue with snooze.

pub mod text;
pub mod message;
pub mod dedup;
pub mod notifier;
pub mod error;
pub mod redirect;
pub mod token;
pub mod oauth;
pub mod gmail;
pub mod orchestrator;
pub mod voice;
pub mod settings;
