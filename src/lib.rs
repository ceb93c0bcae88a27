//! Step orchestration for provisioning a multi-service stack: a fixed, ordered
//! sequence of idempotent steps run with fail-fast semantics over a shared
//! context, and a progress model that an observer keeps up to date from an
//! ordered stream of progress messages.
pub mod actions;
pub mod config;
pub mod constants;
pub mod context;
pub mod failure;
pub mod observer;
pub mod progress;
pub mod registry;
pub mod secret;
pub mod step;
pub mod text;
