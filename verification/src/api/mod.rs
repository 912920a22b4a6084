//! The HTTP surface: the shapes of requests and responses, and what each
//! endpoint decides.

pub mod handlers;
pub mod models;
