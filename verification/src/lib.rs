//! Core of a metrics bridge: it models the payloads of a remote support
//! bot's health and statistics endpoints, maps them onto a fixed set of
//! gauges and absolute counters, drives the retry/backoff polling cycle,
//! and memoizes directory lookups of user display names.
//!
//! Network transport, the metric registry and the scrape listener are
//! external collaborators; they live outside this library and exchange
//! plain values with it.

pub mod data;
pub mod mapping;
pub mod poll;
pub mod slack;
pub mod store;
