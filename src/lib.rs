//! Typed client for the QStash HTTP messaging service.
//!
//! The library builds every request that the service is sent: the endpoint,
//! its query, the header set taken from per-message settings and the JSON body.
//! Sending it and decoding the reply is left to the transport.
pub mod client;
pub mod error;
pub mod headers;
pub mod message;
pub mod text;

pub use client::{is_success_status, Client, Method, Request, BASE_URL};
pub use error::QStashError;
pub use message::MessageSettings;
