//! Textual rendering of dynamically typed script values, and the decisions of
//! the shell that evaluates script text and prints what comes back.

pub mod format;
pub mod shell;
pub mod text;
pub mod value;
