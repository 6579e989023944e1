//! Lifecycle control for a single network listener: a write-once handle slot,
//! the start/stop state machine that guards it, and a one-shot completion
//! signal that reports how a stop request ended.
pub mod lifecycle;
pub mod service;
pub mod signal;
pub mod stop;
