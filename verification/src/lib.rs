//! A per-connection counter stream behind a bearer-token gate.
//!
//! Each accepted connection owns a [`session::Session`]: the token that
//! admitted it and a counter that starts at zero. The transport drives the
//! session one step at a time; every other step waits one second, and the step
//! after it delivers the next counter value as decimal text.

pub mod bearer;
pub mod decimal;
pub mod event;
pub mod heartbeat;
pub mod session;
