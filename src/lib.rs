//! A plain-text editor's state: documents with an optional backing file,
//! an ordered collection of open documents with one active among them,
//! the menu's commands, and the line-number gutter.

pub mod command;
pub mod document;
pub mod tabs;
pub mod text;
