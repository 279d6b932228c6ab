//! Verified core of an interactive, model-driven shell assistant.
//!
//! A conversational model emits tagged command directives inside its replies;
//! this library holds the logic that drives them: the conversation store with
//! its bounded context window, the reply-parsing protocol, the command
//! executor's decision layer (shell resolution, the I/O relay state machine,
//! exit-status classification) and the terminal-mode guard. The surrounding
//! process (line editing, pseudo-terminal syscalls, HTTP transport, config
//! files) feeds plain values in and carries the decided actions out.

pub mod cli;
pub mod completion;
pub mod config;
pub mod conversation;
pub mod executor;
pub mod llm;
pub mod message;
pub mod protocol;
pub mod text;
