//! Verified core of a residential-complex backend: time-bounded guest access
//! through a vehicle barrier, and the input rules the rest of the service
//! relies on.

pub mod config;
pub mod error;
pub mod middleware;
pub mod models;
pub mod services;
pub mod utils;
