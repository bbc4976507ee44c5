//! The errors of configuring a client and of building a request. What goes
//! wrong fails the one call; the client stays as it was.

use vstd::prelude::*;

verus! {

/// Why a client could not be configured.
#[derive(Debug, Clone, Copy, PartialEq, Eq, Structural)]
pub enum ConfigurationError {
    /// The base text is no URI, or one without a scheme or an authority.
    InvalidBaseUri,
    /// The token holds a character that no header value may hold.
    InvalidAuthToken,
    /// A protocol name is empty or longer than 255 bytes.
    InvalidTlsConfig,
}

/// Why a request could not be built.
#[derive(Debug, Clone, Copy, PartialEq, Eq, Structural)]
pub enum RequestBuildError {
    /// The text is no path and query.
    InvalidPath,
    /// The body cannot be written as JSON.
    SerializationError,
}

} // verus!
