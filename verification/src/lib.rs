//! Process-bootstrap and invocation-bridging core of a game engine.
//!
//! Three incompatible invocation models (a native argument vector, a raw
//! `argc`/`argv` array handed across a foreign boundary, and a
//! host-constructed string array from a managed runtime) are reconciled into
//! one validated, write-once, process-wide argument snapshot. The core then
//! selects the logging backend for the build target and decides which
//! long-running execution mode (client loop or server loop) to enter.

pub mod bridge;
pub mod cache;
pub mod dispatch;
pub mod logging;
pub mod parser;
