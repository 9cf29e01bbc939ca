//! A small HTTP/1.1 server library: requests are parsed from raw bytes,
//! dispatched by path and method to a registered handler, and responses are
//! written back as bytes.

pub mod bytes;
pub mod headers;
pub mod request;
pub mod response;
pub mod router;
pub mod server;
pub mod status;
pub mod text;
