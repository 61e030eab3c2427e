//! Typed, I/O-free core of a client for the ArtifactsMMO REST API.
//!
//! The crate describes every exchange with the server as plain data: which
//! request an operation sends, and what a reply means once its status and
//! body are known. Performing the exchange is left to the caller.

pub mod api;
