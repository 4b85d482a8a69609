//! A newsletter service: a liveness probe, and a subscription form whose
//! fields are decoded and checked here before one row per subscriber is
//! stored.
pub mod configuration;
pub mod form;
pub mod health_check;
pub mod subscriptions;
