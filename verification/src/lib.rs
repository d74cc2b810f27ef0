//! A menu of jobs for the terminal: the job model, the dispatch of an
//! activated job, and the state machine that interprets navigation events.
//! Nothing here starts a process or draws a screen; the caller does both
//! and reports back.

pub mod conf;
pub mod dispatch;
pub mod error;
pub mod laws;
pub mod navigation;
pub mod shell;
