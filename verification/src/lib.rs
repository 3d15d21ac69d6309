//! The decisions of a host-monitoring agent, verified.
//!
//! An agent registers its host with a backend, then submits metrics and
//! sends heartbeats at fixed intervals. This library holds what the agent
//! decides: how replies from the backend are read ([`api`]), how a failed
//! registration is retried and when it is given up ([`registration`]), when
//! a periodic task goes on and when it ends the agent ([`scheduler`]), and
//! which configurations are accepted ([`config`]). It sends nothing and
//! sleeps for nothing itself: a program around it performs each step and
//! hands back what came of it.

pub mod api;
pub mod collectors;
pub mod config;
pub mod models;
pub mod registration;
pub mod scheduler;
pub mod status;
pub mod text;
pub mod update;
