//! A client-side gateway that spreads chat and response requests over several
//! configured model backends, choosing one backend per request.

pub mod client;
pub mod config;
pub mod provider;
pub mod router;
pub mod text;
pub mod types;
