//! Decision core of a cancelable background listener.
//!
//! A supervisor binds a listener, announces the bound address exactly once,
//! then races accept attempts against a cancellation request until it is
//! stopped. The awaiting, spawning and socket work are performed by the
//! caller; this crate decides, for each thing that happened, what the
//! supervisor's next state is and what must be done next.

pub mod endpoint;
pub mod supervisor;
pub mod laws;
pub mod delivery;
pub mod signal;
