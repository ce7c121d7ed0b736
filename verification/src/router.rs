//! Routing: choosing the model that serves the next request.

pub mod random;
pub mod router;
pub mod schedule;
pub mod stats;
pub mod weight;
