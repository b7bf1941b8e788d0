//! A chat-hosted quiz master for lateral-thinking "soup" puzzles.
//!
//! The library is the game's core: a session controller that serializes
//! player commands against a single conversation log with a language-model
//! puzzle master, enforces which commands are legal in which state, scores
//! correct answers, and builds the end-of-round result card. The chat
//! gateway and the HTTP client that carries the conversation are external
//! collaborators; they hand the controller plain values and take plain
//! values back.

pub mod commands;
pub mod config;
pub mod laws;
pub mod messages;
pub mod render;
pub mod score;
pub mod session;
pub mod text;
pub mod wire;

pub use messages::ChatCompletionMessage;
pub use messages::MessageLog;
pub use messages::MsgV;
pub use messages::Role;
pub use render::ButtonSpec;
pub use render::ButtonStyle;
pub use render::ResultCard;
pub use render::ScoreField;
pub use score::ScoreBook;
pub use score::ScoreEntry;
pub use session::Action;
pub use session::Directive;
pub use session::Event;
pub use session::LlmError;
pub use session::Session;
pub use session::State;
