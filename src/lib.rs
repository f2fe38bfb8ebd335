//! Syntax-tree data model for a Python front end: source locations, lexical
//! trivia and the node taxonomy that a parser builds and later stages walk.

pub mod location;
pub mod trivia;
pub mod ast;
