//! A single-document text editor core: the text buffer with its cursor, the
//! session state machine around it, and the decisions of its file access.

pub mod dispatch;
pub mod document;
pub mod edits;
pub mod error;
pub mod gateway;
pub mod laws;
pub mod session;
pub mod text;
