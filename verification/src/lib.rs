//! Scoped cleanup guards, detachable tasks, and the capture-list macro
//! front end, with their decision logic proved.

pub mod token;
pub mod outside;
pub mod syntax;
pub mod expand;
pub mod task;
pub mod guard;
