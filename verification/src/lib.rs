//! A fluent builder for SQL `SELECT` statements. A statement is a tree of
//! plain values; its text is a mathematical function of that tree, and the
//! renderers are proved to produce exactly that text.

pub mod query;
pub mod text;
