pub mod api;
pub mod backend;
mod clock;
pub mod command;
pub mod config;
pub mod error;
pub mod gpio;
pub mod gpio_shell;
pub mod hap_server;
pub mod pins;
pub mod replay;
pub mod text;
