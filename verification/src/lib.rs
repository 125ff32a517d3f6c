//! The request handling of a collaboration server: who may call it, how a browser signs a native
//! app in, and how access tokens are handed out.
//!
//! Everything here works on plain values. A request that needs the database, the token issuer or
//! another web service is split where it has to wait: each function takes the reply to the call
//! that went before and returns the next call to make.

pub mod access_token;
pub mod accounts;
pub mod affine;
pub mod authorization;
pub mod clock;
pub mod config;
pub mod error;
pub mod fetch;
pub mod github;
pub mod handoff;
pub mod headers;
pub mod impersonation;
pub mod native_app;
pub mod routes;
pub mod signin;
pub mod text;
pub mod url;
