//! Decision logic of a service that adds missing image descriptions to the
//! posts of one account: which attachments to caption, how often to retry,
//! when a post counts as handled, and what the rewritten post looks like.
//!
//! Everything here computes on plain values. Network calls, timers, files and
//! task spawning belong to the program that drives these functions.

pub mod captions;
pub mod config;
pub mod handler;
pub mod ingest;
pub mod json;
pub mod logging;
pub mod markup;
pub mod patch;
pub mod reply;
pub mod retry;
pub mod shared_data;
pub mod task;
pub mod text;
pub mod update;
pub mod vision;
