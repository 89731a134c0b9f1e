//! Request dispatch and token-based authentication for an HTTP API.

pub mod cookies;
pub mod dispatch;
pub mod error;
pub mod handler;
pub mod jwt;
pub mod response;
pub mod routes;
pub mod security;
pub mod text;
