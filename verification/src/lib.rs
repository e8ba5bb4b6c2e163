//! rargo: a client for remote cargo builds, and crep, the protocol that the
//! client and the build broker speak.

pub mod crep;
pub mod order;
pub mod errors;
pub mod paths;
pub mod client;
pub mod workspace;
pub mod commands;
pub mod auth;
