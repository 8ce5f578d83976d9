//! The settings that a shape's context menu steps through.

pub mod select;
