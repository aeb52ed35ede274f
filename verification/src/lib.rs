//! Bootstrap engine of a small desktop launcher.
//!
//! The launcher makes sure that a runtime and an application payload are on
//! the host, installs or fetches what is missing, and starts the payload. The
//! engine decides; the host around it spawns the programs, looks at the disk
//! and runs the background workers.
//!
//! - [`launcher`] holds the orchestrator: on each trigger it has the host
//!   probed afresh and hands out the one task that is due.
//! - [`task`] holds the background tasks as state machines.
//! - [`probe`] reads what the probes report.
//! - [`descriptor`] says what is installed and run, and with which commands.
//! - [`process`] holds the commands and their outcomes.
//! - [`channel`] holds the mailboxes between workers and observer.
//! - [`text`] holds the text searches that the rest is built on.

pub mod channel;
pub mod descriptor;
pub mod launcher;
pub mod probe;
pub mod process;
pub mod task;
pub mod text;
