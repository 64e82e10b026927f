//! Menu-event validation and dispatch bridge for a single-window desktop
//! shell.
//!
//! A native menu system delivers activation events as opaque string
//! identifiers. This crate validates each identifier against a fixed
//! allow-list, checks that the target window is the one the event is meant
//! for, and decides which named signal, if any, to emit to the embedded web
//! front end. The host framework performs the actual window lookup and
//! emission; it hands the dispatcher the identifier and the resolved
//! window's label, and carries out the decision it gets back.

pub mod dispatch;
pub mod signal;
