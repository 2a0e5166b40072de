//! Heartbeat monitoring engine: checks that expect periodic pings, the
//! detector that finds lapsed checks, and the queue of alerts that delivery
//! workers drain.

pub mod api;
pub mod auth;
pub mod check;
pub mod cli;
pub mod dto;
pub mod jobs;
pub mod jwks;
pub mod jwt;
pub mod laws;
pub mod mask;
pub mod models;
pub mod notification;
pub mod notifier;
pub mod postmark;
pub mod repository;
pub mod settings;
pub mod shortid;
pub mod text;
