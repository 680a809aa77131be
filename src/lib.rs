//! Operation dispatcher of a zero-knowledge proof service: request
//! validation, placeholder proof generation and verification, response
//! shaping and routing, each with a verified contract.

pub mod json;
pub mod artifact;
pub mod response;
pub mod request;
pub mod dispatch;
pub mod route;
