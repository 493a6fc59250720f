pub mod app;
pub mod cli;
pub mod cloud_client;
pub mod errors;
pub mod tui;
pub mod utilities;
