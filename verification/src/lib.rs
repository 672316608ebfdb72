//! The live configuration of a relay: a document of typed sections read from
//! TOML text and laid over built-in defaults, and the rules by which a
//! running process replaces the document it serves when the file changes.

pub mod error;
pub mod field;
pub mod load;
pub mod nesting;
pub mod outside;
pub mod render;
pub mod section;
pub mod setting;
pub mod value;
pub mod watch;
