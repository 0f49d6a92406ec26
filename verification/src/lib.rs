//! Resolves a request's hostname into an action: serve static content,
//! redirect to another internally-known host, or report the input as
//! unrecognized or malformed. Redirect chains are followed under a fixed
//! hop bound, so resolution terminates even on cyclic route tables.

pub mod action;
pub mod routes;
pub mod resolver;
pub mod response;
pub mod laws;
