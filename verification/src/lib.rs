//! Conventional commit messages: the message model, its exact text form, and
//! the decisions of the interactive session that composes and commits one.

pub mod commit_type;
pub mod flow;
pub mod guarantees;
pub mod message;
