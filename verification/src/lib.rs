//! Request construction, transport configuration and typed response decoding
//! for a cluster-management REST interface.

pub mod api;
pub mod auth;
pub mod client;
pub mod decode;
pub mod error;
pub mod json;
pub mod request;
pub mod tls;
pub mod uri;
