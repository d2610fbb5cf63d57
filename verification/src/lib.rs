//! Client library for the REST front-end of an OrbitDB node.
//!
//! The library prepares the HTTP requests of the API and decodes the JSON
//! documents that the server answers with. Sending a prepared request is left
//! to the caller: [`Client`] has one method for each request, and
//! [`response`] has the reader for each answer.

pub mod client;
pub mod decode;
pub mod endpoint;
pub mod error;
pub mod json;
pub mod laws;
pub mod request;
pub mod response;
pub mod text;
pub mod types;

pub use client::Client;
pub use error::Error;
pub use json::Json;
pub use request::Request;
pub use response::{Address, Database, Identity, Options, Signatures};
pub use types::{AccessController, Comparison, DatabaseType, Query, RequestType};
