//! The records that describe a shape, and the partial record that changes one.

use vstd::prelude::*;
use crate::types::Point;

pub mod arrow;
pub mod options;
pub mod rect;
pub mod text;

pub use arrow::State as ArrowDetails;
pub use rect::State as RectDetails;
pub use text::State as TextDetails;

verus! {

/// What kind of shape this is, with what only that kind holds.
#[derive(Debug, PartialEq)]
pub enum ShapeDetails {
    Arrow(arrow::State),
    Rect(rect::State),
    Text(text::State),
}

impl Clone for ShapeDetails {
    fn clone(&self) -> (r: Self)
        ensures
            r == *self,
    {
        match self {
            ShapeDetails::Arrow(state) => ShapeDetails::Arrow(*state),
            ShapeDetails::Rect(state) => ShapeDetails::Rect(*state),
            ShapeDetails::Text(state) => ShapeDetails::Text(state.clone()),
        }
    }
}

/// How a shape is stroked. The three settings are independent.
#[derive(Debug, PartialEq)]
pub struct Options {
    pub stroke_color: options::Color,
    pub roughness: options::Roughness,
    pub thickness: options::Thickness,
}

impl Clone for Options {
    fn clone(&self) -> (r: Self)
        ensures
            r == *self,
    {
        Options {
            stroke_color: self.stroke_color,
            roughness: self.roughness,
            thickness: self.thickness,
        }
    }
}

impl Default for Options {
    fn default() -> (r: Self)
        ensures
            r == (Options {
                stroke_color: options::Color::Transparent,
                roughness: options::Roughness::Medium,
                thickness: options::Thickness::Thin,
            }),
    {
        Options {
            stroke_color: options::Color::Transparent,
            roughness: options::Roughness::Medium,
            thickness: options::Thickness::Thin,
        }
    }
}

/// A shape as it is drawn: two points that span its box, its kind and its
/// stroke. Neither point has to lie left of or above the other.
#[derive(Debug, PartialEq)]
pub struct ShapeConfig<T> {
    pub start: Point<T>,
    pub end: Point<T>,
    pub details: ShapeDetails,
    pub options: Options,
}

impl<T: Copy> Clone for ShapeConfig<T> {
    fn clone(&self) -> (r: Self)
        ensures
            r == *self,
    {
        ShapeConfig {
            start: self.start,
            end: self.end,
            details: self.details.clone(),
            options: self.options.clone(),
        }
    }
}

/// A change to a shape: each field that is present replaces the shape's
/// field, each field that is absent leaves it as it is.
#[derive(Debug)]
pub struct PartialShapeConfig<T> {
    pub start: Option<Point<T>>,
    pub end: Option<Point<T>>,
    pub details: Option<ShapeDetails>,
    pub options: Option<Options>,
}

impl<T: Copy> Clone for PartialShapeConfig<T> {
    fn clone(&self) -> (r: Self)
        ensures
            r == *self,
    {
        PartialShapeConfig {
            start: self.start,
            end: self.end,
            details: match &self.details {
                Some(details) => Some(details.clone()),
                None => None,
            },
            options: match &self.options {
                Some(options) => Some(options.clone()),
                None => None,
            },
        }
    }
}

impl<T> PartialShapeConfig<T> {
    /// The change that replaces every field by that of `config`.
    pub open spec fn whole(config: ShapeConfig<T>) -> Self {
        PartialShapeConfig {
            start: Some(config.start),
            end: Some(config.end),
            details: Some(config.details),
            options: Some(config.options),
        }
    }
}

impl<T> ShapeConfig<T> {
    /// This shape after `patch`: field by field, the patch's value where it
    /// has one, this shape's own where it has none.
    pub open spec fn patched(self, patch: PartialShapeConfig<T>) -> Self {
        ShapeConfig {
            start: match patch.start {
                Some(start) => start,
                None => self.start,
            },
            end: match patch.end {
                Some(end) => end,
                None => self.end,
            },
            details: match patch.details {
                Some(details) => details,
                None => self.details,
            },
            options: match patch.options {
                Some(options) => options,
                None => self.options,
            },
        }
    }

    /// Overwrites each field for which `update` holds a value.
    pub fn update(&mut self, update: PartialShapeConfig<T>)
        ensures
            *final(self) == old(self).patched(update),
    {
        if let Some(top_left) = update.start {
            self.start = top_left;
        }
        if let Some(bottom_right) = update.end {
            self.end = bottom_right;
        }
        if let Some(details) = update.details {
            self.details = details;
        }
        if let Some(options) = update.options {
            self.options = options;
        }
    }
}

} // verus!
