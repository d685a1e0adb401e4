//! Command/response bridge between a poll-driven front end and a remote
//! readout instrument: the typed commands and responses, the dispatch rules of
//! the worker that owns the device, and the front end's display state.

pub mod command_line;
pub mod dispatch;
pub mod display;
pub mod frames;
pub mod protocol;
pub mod requests;
pub mod status;
pub mod values;
pub mod worker;
