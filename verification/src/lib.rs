//! A verified core for a CAN-bus interface layered over the `python-can`
//! messaging library.
//!
//! The crate models the four supported transports as a closed configuration
//! type, fixes the named parameters each backend is opened with, represents
//! CAN frames uniformly, and captures the bring-up, send, and listener
//! dispatch rules of the interface.  The foreign calls themselves (opening a
//! bus, blocking receive, transmitting, running the notifier thread) are left
//! to an unverified shell that feeds their outcomes back into this core.

pub mod config;
pub mod error;
pub mod interface;
pub mod loopback;
pub mod message;
pub mod notifier;
pub mod text;

pub use config::BusParam;
pub use config::PyCanBusType;
pub use error::PyCanError;
pub use interface::BackendOutcome;
pub use interface::PyCanInterface;
pub use loopback::LoopbackBus;
pub use message::CanTimestamp;
pub use message::PyCanMessage;
pub use notifier::BusEvent;
pub use notifier::ListenerCall;
pub use notifier::route_event;
