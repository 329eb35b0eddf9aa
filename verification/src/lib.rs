//! A verified model of a minimal desktop-application shell.
//!
//! The shell boots a native window host, attaches two capability plugins
//! (filesystem access and native dialogs), registers two remote commands
//! (`close_window` and `minimize_window`) and then runs the host's event
//! loop until the last window is gone.
//!
//! The host runtime itself is outside this library; what is verified here is
//! the shell's observable contract: what each command does to the window it
//! was handed, that no other window is touched, and what the bootstrap
//! sequence registers before the run loop starts.

pub mod window_table;

pub mod host;

pub mod bootstrap;
