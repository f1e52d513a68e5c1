//! Client side of the time tracker's GraphQL endpoint: the request body for
//! the clients-with-projects query, and the classification and decoding of
//! the server's answer into typed records or a structured error.
pub mod json;
pub mod types;
pub mod decode;
pub mod response;
pub mod request;
