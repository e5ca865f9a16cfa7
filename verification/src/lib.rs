//! A small interactive SSH-like honeypot: the login exchange, the fake
//! shell and the activity log, as a verified state machine.

pub mod text;
pub mod replies;
pub mod directories;
pub mod shell;
pub mod log;
pub mod session;
pub mod laws;
pub mod answers;
