//! Verified core of a Unix terminal backend for a line editor: the signal
//! relay, terminal-mode transforms, cursor movement plans, timeout
//! conversion and the decisions of the input wait loop.
pub mod attrs;
pub mod cursor;
pub mod error;
pub mod session;
pub mod signal;
pub mod timeout;
pub mod wait;
