//! A small authenticated relay that mints randomized email aliases and
//! registers them on one account of an upstream mail-identity service.
//!
//! The crate holds the decisions of the request pipeline: bearer-token
//! authorization, alias generation, the shape of the upstream mutation, and
//! the assembly of the reply. Sending and receiving is left to the caller.

pub mod alias;
pub mod auth;
pub mod config;
pub mod handler;
pub mod reply;
pub mod text;
pub mod upstream;
