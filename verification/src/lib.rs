//! Reachability monitoring for a fixed set of hosts.
//!
//! Each host gets a [`monitor::Monitor`]: a two-state liveness machine that
//! turns probe outcomes and clock readings into journal entries. A
//! [`coordinator::Coordinator`] sequences the life of the whole process:
//! launch every monitor, wait for the termination signal, ask every monitor
//! to stop, then wait for every monitor to finish.
//!
//! The machines perform no input or output themselves. The caller probes,
//! waits and writes; it reports what happened and is told what to do next.
//!
//! - [`target`]: the hosts to monitor, and the checks on the list of them.
//! - [`probe`]: how a host is probed, and how often.
//! - [`monitor`]: the liveness machine of one host.
//! - [`history`]: the journal of a whole run of a monitor, and its laws.
//! - [`text`]: journal entries put into words.
//! - [`clock`]: the timestamp of a journal line.
//! - [`coordinator`]: the phases of the process, and the order of a shutdown.
//! - [`latency`]: how long a shutdown takes.
//! - [`fleet`]: coordinator and monitors together.

pub mod clock;
pub mod coordinator;
pub mod fleet;
pub mod history;
pub mod latency;
pub mod monitor;
pub mod probe;
pub mod target;
pub mod text;
