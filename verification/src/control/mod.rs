//! What a controller needs to turn gestures into commands.

use vstd::prelude::*;
use crate::model::{PartialShapeConfig, ShapeConfig};
use crate::types::Point;

pub mod menu;

verus! {

/// The handle by which a shape's box is dragged: one of its four corners or
/// of its four edges.
#[derive(Debug, Clone, Copy)]
pub enum ModificationType {
    TL,
    TR,
    BL,
    BR,
    T,
    R,
    B,
    L,
}

impl ModificationType {
    /// The change that dragging this handle makes to the shape `config`.
    ///
    /// `snapped` is the pointer's place on the grid, `pointer` its place as
    /// it is. A corner follows `snapped`: the top left corner is `start`,
    /// the bottom right corner is `end`, and each of the other two moves one
    /// coordinate of both. An edge follows `pointer` in one coordinate: top
    /// and left move `start`, bottom and right move `end`.
    pub open spec fn drag<T>(
        self,
        config: ShapeConfig<T>,
        snapped: Point<T>,
        pointer: Point<T>,
    ) -> PartialShapeConfig<T> {
        let (start, end) = match self {
            ModificationType::TL => (Some(snapped), None),
            ModificationType::TR => (
                Some(Point { x: config.start.x, y: snapped.y }),
                Some(Point { x: snapped.x, y: config.end.y }),
            ),
            ModificationType::BR => (None, Some(snapped)),
            ModificationType::BL => (
                Some(Point { x: snapped.x, y: config.start.y }),
                Some(Point { x: config.end.x, y: snapped.y }),
            ),
            ModificationType::T => (Some(Point { x: config.start.x, y: pointer.y }), None),
            ModificationType::R => (None, Some(Point { x: pointer.x, y: config.end.y })),
            ModificationType::B => (None, Some(Point { x: config.end.x, y: pointer.y })),
            ModificationType::L => (Some(Point { x: pointer.x, y: config.start.y }), None),
        };
        PartialShapeConfig { start, end, details: None, options: None }
    }

    /// Computes the change that dragging this handle makes.
    pub fn patch<T: Copy>(
        self,
        config: &ShapeConfig<T>,
        snapped: Point<T>,
        pointer: Point<T>,
    ) -> (r: PartialShapeConfig<T>)
        ensures
            r == self.drag(*config, snapped, pointer),
    {
        match self {
            ModificationType::TL => PartialShapeConfig {
                start: Some(snapped),
                end: None,
                details: None,
                options: None,
            },
            ModificationType::TR => PartialShapeConfig {
                start: Some(Point { x: config.start.x, y: snapped.y }),
                end: Some(Point { x: snapped.x, y: config.end.y }),
                details: None,
                options: None,
            },
            ModificationType::BR => PartialShapeConfig {
                start: None,
                end: Some(snapped),
                details: None,
                options: None,
            },
            ModificationType::BL => PartialShapeConfig {
                start: Some(Point { x: snapped.x, y: config.start.y }),
                end: Some(Point { x: config.end.x, y: snapped.y }),
                details: None,
                options: None,
            },
            ModificationType::T => PartialShapeConfig {
                start: Some(Point { x: config.start.x, y: pointer.y }),
                end: None,
                details: None,
                options: None,
            },
            ModificationType::R => PartialShapeConfig {
                start: None,
                end: Some(Point { x: pointer.x, y: config.end.y }),
                details: None,
                options: None,
            },
            ModificationType::B => PartialShapeConfig {
                start: None,
                end: Some(Point { x: config.end.x, y: pointer.y }),
                details: None,
                options: None,
            },
            ModificationType::L => PartialShapeConfig {
                start: Some(Point { x: pointer.x, y: config.start.y }),
                end: None,
                details: None,
                options: None,
            },
        }
    }
}

} // verus!
