//! A minimal URL-shortening service: clients register a short identifier
//! mapped to a target URL, and visiting the short identifier yields an HTTP
//! redirect to the target. A credential guard protects the management
//! operations (create, delete, inspect, list); the redirect path is public.
//!
//! The mapping store, the credential guard, the request validation rules and
//! the response mapping are verified here. Network transport, persistence
//! plumbing and configuration loading are unverified collaborators that hand
//! this library plain values and carry its decisions out.

pub mod api;
pub mod config;
pub mod laws;
pub mod middleware;
pub mod query;
pub mod service;
pub mod store;
pub mod url;
