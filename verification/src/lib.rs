//! Client library for the prompt-hub, graph-runtime and control-plane HTTP
//! APIs: credential and scope resolution, request construction with the
//! correct per-service header sets, response interpretation, and the
//! deployment create/wait workflow.
//!
//! The library itself performs no I/O: it builds plain request values and
//! interprets plain response values, so that every rule it implements can be
//! stated and checked.

pub mod assistants;
pub mod auth;
pub mod client;
pub mod commands;
pub mod config;
pub mod deployments;
pub mod error;
pub mod integrations;
pub mod json;
pub mod organization;
pub mod output;
pub mod prompts;
pub mod text;
