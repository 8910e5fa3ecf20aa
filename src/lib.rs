//! A traffic-mirroring TCP relay, as a verified decision core.
//!
//! The relay copies every byte a client sends to a set of upstreams and
//! returns to the client only what the primary upstream (the first one)
//! answers. The modules here decide what happens on each event of a session;
//! the sockets themselves are driven by the program around this library.

pub mod config;
pub mod pump;
pub mod session;

pub use config::{Config, ConfigError};
pub use pump::{Pump, PumpState, PumpStep, ReadOutcome};
pub use session::{Action, Phase, Session};
