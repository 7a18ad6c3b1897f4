//! Collects named, optionally coloured choices from an interactive prompt, a
//! list of names or a chat stream, and renders them as a JSON array.

pub mod arguments;
pub mod choice;
pub mod engine;
pub mod error;
pub mod file_mode;
pub mod interactive_mode;
pub mod output;
pub mod text;
pub mod twitch_mode;

pub use arguments::Arguments;
pub use choice::Choice;
pub use engine::MainState;
pub use interactive_mode::InteractiveMode;
pub use twitch_mode::TwitchMode;
