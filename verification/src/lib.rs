//! Core engine of an embedded command console: a character-accurate input
//! buffer with cursor arithmetic, bounded command history, completion
//! prediction with a hash-gated cache, and an enter-key dispatch protocol
//! that tokenizes the buffer and resolves it against a registered command
//! set.  Rendering front ends consume the state exposed here and feed back
//! discrete edit actions.

pub mod buffer;
pub mod command_table;
pub mod console;
pub mod history;
pub mod index;
pub mod predict;
pub mod text;
pub mod tokenize;
