//! The editor: its state machine and the pure helpers the preview draws with.
pub mod render;
pub mod keys;
pub mod laws;
pub mod picker;
pub mod state;
pub mod view;

pub use state::normalize_theme_name;
pub use state::App;
