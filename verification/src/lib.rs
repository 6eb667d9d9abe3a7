pub mod text;
pub mod theme;
pub mod config;
pub mod ui;
pub mod cli;
