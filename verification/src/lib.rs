//! Account registration, login and private-chat creation for a chat backend:
//! the rules that decide, with what they promise stated as contracts.

pub mod auth;
pub mod configuration;
pub mod error;
pub mod routes;
pub mod startup;
