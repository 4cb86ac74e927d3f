//! yocalhost: an HTTP development server that imposes artificial latency and
//! bandwidth limits.
//!
//! This crate holds the decisions of the server. What waits, listens or reads
//! files stands around it and asks it what to do next.
pub mod acceptor;
pub mod args;
pub mod duration;
pub mod exchange;
pub mod handles;
pub mod http;
pub mod paths;
pub mod ports;
pub mod server;
pub mod startup;
pub mod stats;
pub mod text;

pub use args::{parse_bandwidth, Args};
pub use duration::Duration;
pub use ports::PortCounter;
pub use server::ThrottledServer;
pub use stats::{Response, Stats};
