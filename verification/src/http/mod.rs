//! The HTTP front door: which handler serves a request and what it answers.

pub mod request;
pub mod routes;
