//! Command layer for a remote client-records API.
//!
//! Every operation of the layer is split into pure, verified stages: build
//! the request (endpoint string, JSON payload or multipart form), and
//! normalize the outcome that the transport reports (status code, decoded
//! body or error text) into a typed result.  The unverified shell around the
//! library performs the actual file reads and HTTP exchanges and feeds the
//! plain values back in.

pub mod api_types;
pub mod client_commands;
pub mod email_commands;
pub mod errors;
pub mod file_commands;
pub mod laws;
pub mod executor;
pub mod request;
pub mod text;
