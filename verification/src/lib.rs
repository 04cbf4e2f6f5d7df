//! One-shot provisioning pipeline for a Windows development machine: presence
//! checks, release-asset selection, installer outcome classification, bounded
//! readiness polling, and an idempotent PATH update, composed as a sequential
//! state machine with early abort on failure.

pub mod assets;
pub mod config;
pub mod errors;
pub mod pathenv;
pub mod pipeline;
pub mod presence;
pub mod process;
pub mod text;
pub mod waiter;
