//! A real-time broadcast relay core: a registry of connected sessions and
//! the fan-out engine that delivers one session's text message to every
//! other session's outbound queue.

pub mod codec;
pub mod lifecycle;
pub mod message;
pub mod model;
pub mod registry;
pub mod session;
