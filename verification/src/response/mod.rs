//! The two sides of a response: building one on the server, reading one on the client.

pub mod client;
pub mod client_model;
pub mod http;
pub mod http_model;
