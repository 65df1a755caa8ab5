//! Terminal input events, the reader that buffers and selects them, and the
//! commands that configure what a terminal reports.

pub mod event;
pub mod command;
pub mod timeout;
pub mod reader;
