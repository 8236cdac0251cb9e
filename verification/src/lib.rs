//! Osprey agent: the decision logic behind the Windows remote-access service,
//! with its contracts proved by Verus.
//!
//! Everything that touches a socket, a file, a thread or a platform API lives
//! in the companion binary; what remains here is what decides: which addresses
//! may be bound, served and advertised; how long to back off and when a relay
//! disconnect is final; when the keepalive declares a link dead; what the
//! 24-hour metrics history returns and which samples it keeps; what a session
//! answers to each message; which peers a selector names; when a revocation
//! nonce is spent and what a revocation removes; which live sessions an unpair
//! closes; and how the helper supervisor reacts to what it observes.

pub mod text;
pub mod time;
pub mod link;
pub mod metrics;
pub mod ring;
pub mod wire;
pub mod engine;
pub mod helper;
pub mod state;
pub mod relay;
pub mod supervisor;
pub mod revoke;
pub mod session;
pub mod lan;
pub mod discovery;
pub mod paths;
pub mod collect;
pub mod qrterm;
pub mod service;
pub mod commands;
pub mod cli;
pub mod registry;
pub mod pacing;
