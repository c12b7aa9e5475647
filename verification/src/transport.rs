//! The decision content of the transport boundary: how a use-case failure is
//! mapped to a status code and an error body. Building the actual responses
//! is left to the surrounding web layer.

pub mod errors;
