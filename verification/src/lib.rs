//! The document engine of a diagram editor: a collection of shapes that is
//! changed only through commands, with a linear undo/redo history and a
//! registry of observers that are told of every change.

pub mod control;
pub mod draw;
pub mod model;
pub mod rough;
pub mod types;
pub mod view;
