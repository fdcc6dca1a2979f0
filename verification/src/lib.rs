//! A pseudo-terminal session manager: it spawns a shell attached to a pty,
//! forwards input to the shell, resizes the terminal geometry while the shell
//! runs, and classifies the shell's output stream for a consumer-driven pump.

pub mod errors;
pub mod model;
pub mod pty;
pub mod pump;
pub mod session;
