pub mod command;
pub mod config;
pub mod error;
pub mod events;
pub mod pump;
pub mod registry;
