//! Verified core of the Android terminal backend: the runtime's file layout,
//! the session registry of the pseudo-terminals, the decisions taken while a
//! pseudo-terminal pair is opened and while the runtime is bootstrapped, and
//! the bounded output buffer between the terminal and the frontend.
pub mod paths;
pub mod output;
pub mod text;
pub mod pty;
pub mod pty_pair;
pub mod bootstrap;
pub mod settings;
