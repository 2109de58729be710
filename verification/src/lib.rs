//! Core of a terminal coding agent: the session protocol between a client and
//! the agent, the safety evaluator for model-proposed commands and patches,
//! the authentication manager, the streaming-client state machine, and the
//! wire codec for submissions and events.

pub mod apply_patch;
pub mod auth;
pub mod b64;
pub mod client;
pub mod client_common;
pub mod codec;
pub mod codec_ops;
pub mod codec_request;
pub mod error;
pub mod exec_events;
pub mod history;
pub mod json;
pub mod models;
pub mod paths;
pub mod protocol;
pub mod runtime;
pub mod safety;
pub mod session;
pub mod strutil;
pub mod user_instructions;
