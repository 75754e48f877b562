//! Decision logic of a directory watcher that forwards every newly created
//! file to a chat endpoint as a photo, a video or a document.
//!
//! Everything that waits (file reads, timers, network calls, the filesystem
//! notification stream) is performed by the embedding program. This crate holds
//! the rules: how a file is classified, how long a locked file is retried, what
//! is sent where, when the companion-process monitor stops the program, and
//! which upload tasks an incoming filesystem event spawns.

pub mod classify;
pub mod task;
pub mod watch;
pub mod reader;
pub mod monitor;
pub mod dispatch;
