//! The core of an HTTP client.
//!
//! A [`HttpClient`] works out how a [`Request`] is to be sent, an [`Agent`] keeps the
//! transfers of the client within its limits, and a [`TransferHandler`] takes what a
//! transfer driver reports of one transfer and gives the [`Response`] and its body to the
//! caller. Nothing here waits, and nothing here touches a socket: the caller runs the
//! transfer driver and the loop around it.

pub mod agent;
pub mod auth;
pub mod body;
pub mod client;
pub mod config;
pub mod error;
pub mod handler;
pub mod headers;
pub mod interceptor;
pub mod middleware;
pub mod parse;
pub mod pipe;
pub mod request;
pub mod response;
pub mod text;

pub use crate::agent::Agent;
pub use crate::body::{AsyncBody, Body};
pub use crate::client::{HttpClient, HttpClientBuilder};
pub use crate::error::ClientError;
pub use crate::handler::TransferHandler;
pub use crate::request::Request;
pub use crate::response::{Metrics, Response, ResponseExt};
