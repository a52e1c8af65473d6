//! A small continuous-integration dispatcher: repositories, trigger rules,
//! per-repository job queues and the authentication of inbound notifications.

pub mod config;
pub mod git;
pub mod identity;
pub mod queue;
pub mod repository;
pub mod response;
pub mod text;
pub mod user;
pub mod webhook;
