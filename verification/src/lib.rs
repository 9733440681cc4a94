//! Request-handling rules of the Neon Defense game backend: anti-cheat checks on
//! match uploads and the steps of saving one, the signature and bearer-token
//! gates, password checks, and the shape of every reply the service sends back.

pub mod error;
pub mod json;
pub mod text;

pub mod auth;
pub mod security;

pub mod game;
pub mod sync;

pub mod health;
pub mod models;
pub mod player;
pub mod store;
