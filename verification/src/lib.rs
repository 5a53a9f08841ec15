//! A verified engine for a grid game of scripted tanks.
//!
//! Four independently scripted agents ("tanks") move and fire on a grid.
//! Each tick, an external program interpreter advances every agent once;
//! the engine then resolves line-of-sight shot damage, an optional
//! wall-collision rule, and inter-agent collision damage, in a fixed order.
//! A session object presents a stable stepping interface by replaying every
//! tick from a cached initial snapshot, so that no interpreter state has to
//! survive between external calls.
//!
//! The interpreters themselves are an outside capability: the engine takes
//! their per-tick outcomes as plain values and is verified for every
//! possible outcome.

pub mod error;
pub mod session;
pub mod engine;
pub mod status;

pub use engine::TanquesEngine;
pub use error::EngineError;
pub use error::JsEngineError;
pub use error::RuntimeCause;
pub use error::SrcLocation;
pub use session::ApiInitWrapper;
pub use session::EngineApi;
pub use status::GameStatus;
pub use status::TankDirection;
pub use status::TankStatus;
