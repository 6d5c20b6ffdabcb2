//! Identity: the claims a bearer token conveys, and the role rules.

pub mod extractor;
pub mod models;
pub mod roles;
pub mod security;
