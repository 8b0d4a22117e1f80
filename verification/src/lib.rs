//! Decision logic of an IME mode indicator: which label an IBus engine or
//! input-mode symbol means, how the configuration layers resolve, how caret
//! events from the IBus bus are filtered, and how the overlay follows them.
pub mod text;
pub mod label;
pub mod config_value;
pub mod config;
pub mod ibus;
pub mod caret;
pub mod overlay;
