//! Lifecycle orchestration for an external proxy engine that runs either as a
//! directly owned child process or under a privileged background service.
//!
//! Every transition of the orchestrator is a verified function from the
//! current state and an observed event to the next state and the action that
//! the surrounding runtime must carry out.

pub mod app_events;
pub mod cmd;
pub mod engine;
pub mod laws;
pub mod logs;
pub mod manager;
pub mod mode;
pub mod planner;
pub mod pump;
pub mod resolve;
pub mod sidecar;
pub mod text;
