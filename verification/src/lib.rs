//! Client library for the admin socket of a routing daemon.
//!
//! The daemon speaks a line-delimited JSON protocol: one request line per
//! connection, answered by one reply line. This crate builds the request
//! line from a command and its `key=value` tokens ([`request`]), resolves
//! the endpoint to connect to ([`endpoint`]), checks the status of a reply
//! ([`response`]), renders the payload of the known commands as aligned text
//! ([`render`]) and decides what an invocation is to do and how it ends
//! ([`invocation`], [`session`], [`outcome`]). Reading the command line,
//! opening the connection and moving the two lines is left to the caller.
//!
//! JSON text is read and written by `serde_json`; [`json`] holds the model
//! of a document that the contracts are stated over and what is assumed of
//! `serde_json`. [`text`] holds the operations on characters.

pub mod endpoint;
pub mod invocation;
pub mod json;
pub mod outcome;
pub mod render;
pub mod request;
pub mod response;
pub mod session;
pub mod text;
