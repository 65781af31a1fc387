//! Debug-adapter backend for a script interpreter: the breakpoint registry,
//! the pause controller that the execution thread follows, the launch state
//! of a session, and the translation of interpreter state into protocol shapes.

pub mod model;
pub mod registry;
pub mod translate;
pub mod controller;
pub mod session;
