//! Verified core of a LAN camera bridge: a phone's browser streams camera
//! frames over a WebSocket to a desktop application, which re-emits them on
//! its own event bus.
//!
//! The crate holds the rules of that bridge: which URL is advertised to the
//! phone, which bytes answer which request, how one WebSocket session turns
//! into bus events, and how the self-signed TLS identity is obtained.
//! Sockets, the TLS listener and the event bus themselves live with the
//! embedding application.
//!
//! - [`advertise`]: the URL shown for the phone to open.
//! - [`bundle`]: the three client files and the answer to a request for one.
//! - [`cert`]: the self-signed TLS identity.
//! - [`config`]: the listener's address and port.
//! - [`endpoint`]: what is prepared before binding, and request dispatch.
//! - [`error`]: the failures that stop a start.
//! - [`relay`]: one WebSocket session as a state machine, and its laws.
//! - [`sessions`]: several sessions emitting into one bus.
//! - [`startup`]: the order of startup steps and what a failed step means.
//! - [`text`]: helpers on text.

pub mod advertise;
pub mod bundle;
pub mod cert;
pub mod config;
pub mod endpoint;
pub mod error;
pub mod relay;
pub mod sessions;
pub mod startup;
pub mod text;
