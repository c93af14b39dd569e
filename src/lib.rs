//! Verified core of a terminal dashboard for a workflow-orchestration service:
//! per-screen state machines, the command/result protocol between the render
//! loop and the background worker, and the text shown for remote records.

pub mod text;
pub mod records;
pub mod command;
pub mod list;
pub mod detail;
pub mod screens;
pub mod config;
pub mod worker;
pub mod app;
pub mod laws;
