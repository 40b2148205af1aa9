//! Bounded-concurrency orchestration of media downloads.
//!
//! The core is the download queue, the cancellation flags, the decisions of
//! the monitor that watches one worker process, and those of the pump and
//! its supervisor that hand queued jobs to monitors. Around it stand the
//! settings of a download and their validation, the worker's arguments, the
//! errors, what is read out of the worker's JSON, the log's entries and the
//! remote control's answers.
//!
//! The library decides and computes; it performs no input or output.

pub mod arguments;
pub mod cancellation;
pub mod commands;
pub mod decimal;
pub mod dispatch;
pub mod download_queue;
pub mod error;
pub mod events;
pub mod json;
pub mod logging;
pub mod media_info;
pub mod monitor;
pub mod playlist;
pub mod progress;
pub mod queue_laws;
pub mod redgifs;
pub mod remote;
pub mod settings;
pub mod text;
pub mod thumbnail;
pub mod window;
