//! A local process supervisor for a companion server: it decides where the
//! server's artifacts live, which entry point to launch and with what
//! environment, when the server counts as network-reachable, and that the
//! child handle is taken for termination at most once.
//!
//! The supervisor's decisions are verified here over plain observations
//! (paths, marker-existence flags, connection outcomes). The host process
//! gathers those observations from the operating system and carries out the
//! chosen actions.

pub mod lifecycle;
pub mod locator;
pub mod plan;
pub mod poller;
pub mod prober;
pub mod supervisor;
