pub mod auth;
pub mod capabilities;
pub mod cli;
pub mod configuration;
pub mod diagnostics;
pub mod discovery;
pub mod gauge;
pub mod mappers;
pub mod server;
pub mod text;
pub mod transport;
