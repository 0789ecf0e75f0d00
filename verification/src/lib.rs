//! The verified core of a Model Context Protocol server for Onshape.

pub mod authorization;
pub mod callback;
pub mod cli;
pub mod config;
pub mod credentials;
pub mod duration;
pub mod encoding;
pub mod endpoints;
pub mod errors;
pub mod hex;
pub mod laws;
pub mod middleware;
pub mod outside;
pub mod records;
pub mod persistence;
pub mod refresh;
pub mod registration;
pub mod state;
pub mod store;
pub mod table;
pub mod text;
pub mod time;
pub mod token;
pub mod url;
