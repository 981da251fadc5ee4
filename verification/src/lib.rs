//! Dictation session controller.
//!
//! This library owns the lifecycle logic of a single privileged
//! speech-capture worker process: the `Idle`/`Recording` session state
//! machine driven by toggle requests, the graceful-then-forced termination
//! protocol with bounded wait times, the allow-listed environment that is
//! forwarded to the worker, and the audible cues that accompany each
//! transition. The surrounding program (window toolkit, audio device,
//! hotkey listener, process spawning) performs the outside work and feeds
//! its observations back into the verified state machines defined here.

pub mod config;
pub mod cues;
pub mod launch;
pub mod session;
pub mod termination;
