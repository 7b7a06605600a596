pub mod clock;
pub mod error;
pub mod parsing_handler;
pub mod text;
pub mod todo_backend;
pub mod tui_handler;
