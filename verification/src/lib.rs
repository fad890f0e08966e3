//! Startup and event-wiring layer of a desktop application shell.
//!
//! The library enforces single-instance execution, decides when the process
//! must register itself as the handler for its custom URL schemes, and relays
//! incoming deep-link URLs from the operating system to the application's
//! single visible window ("main").
//!
//! The OS boundary itself (window handles, the event loop, the IPC that
//! carries a losing launch's arguments to the winner) is left to an outer
//! adapter; the decisions it must take are all here, each with a contract.

pub mod arbiter;
pub mod channel;
pub mod platform;
pub mod relay;
pub mod startup;
pub mod window;
