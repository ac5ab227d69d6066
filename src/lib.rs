//! Control logic for a live audio-capture session: the worker's state machine,
//! the slot that hands samples to the active encoder, the controller's local
//! bookkeeping, and the command-line tokenizer of the interactive front end.

pub mod cli;
pub mod command_line;
pub mod controller;
pub mod error;
pub mod format;
pub mod lifecycle;
pub mod protocol;
pub mod slot;
pub mod worker;
