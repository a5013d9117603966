//! Event classification and notification routing for speedrun pace alerts.
//!
//! A telemetry record is classified by its trailing event, matched against
//! each guild's subscriber roles, and turned into one action per guild for
//! the messaging sink to perform.

pub mod text;
pub mod split;
pub mod event;
pub mod classify;
pub mod guild;
pub mod store;
pub mod content;
pub mod router;
pub mod handler;
pub mod components;
pub mod role_names;
