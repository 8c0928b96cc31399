//! The core of a live audio level meter: the shared cells through which the
//! capture side and the display side meet, the decisions of the capture
//! session and of the shutdown watcher, each as a step from a state and an
//! event to the next state and the action to perform, and what can be decided
//! of a level from its bit pattern alone.

pub mod capture;
pub mod level;
pub mod lifecycle;
pub mod presentation;
pub mod publisher;
pub mod run_state;
