//! Providers: what stands between the gateway and one model's backend.

pub mod faker;
pub mod openai;
pub mod provider;
