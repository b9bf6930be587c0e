//! Input handling and view models of the terminal widgets.
pub mod input_handler;
pub mod components;
pub mod keys;
pub mod layout;
pub mod styled;
pub mod text_input;
pub mod wrap;
