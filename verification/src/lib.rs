//! A currency-conversion service's rules: how a request becomes one upstream
//! fetch and one answer, how the reported health status alternates, and how
//! settings are resolved from the environment.
pub mod config;
pub mod health;
pub mod rates;
pub mod service;
