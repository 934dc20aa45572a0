pub mod actions;
pub mod pending;
pub mod message;
pub mod state;
pub mod app;
pub mod args;
pub mod servers;
