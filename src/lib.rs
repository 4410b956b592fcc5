//! Verified core of a metrics bridge for a home-automation hub: the session that caches
//! the hub's access token, the translation of accessory records into gauge families,
//! the bearer-token check that guards the restart action, and the decisions a request
//! handler takes between its outside calls.

pub mod session;
pub mod accessory;
pub mod registry;
pub mod auth;
pub mod hub;
pub mod handler;
pub mod config;
