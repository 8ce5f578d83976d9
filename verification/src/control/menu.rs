use vstd::prelude::*;
use crate::model::shape::options::{Color, Roughness, Thickness};
use crate::model::{ArrowDetails, Options, RectDetails, ShapeConfig, ShapeDetails};
use crate::types::Point;

verus! {

/// A button of the main menu: the tool that it selects.
#[derive(Debug, Clone, Copy, PartialEq, Eq)]
pub enum MainMenuButton {
    Arrow,
    Rect,
    Text,
    Select,
}

impl Default for MainMenuButton {
    fn default() -> (r: Self)
        ensures
            r == MainMenuButton::Select,
    {
        MainMenuButton::Select
    }
}

impl MainMenuButton {
    /// The text that names the button.
    pub open spec fn title(self) -> &'static str {
        match self {
            MainMenuButton::Arrow => "Arrow",
            MainMenuButton::Rect => "Rectangle",
            MainMenuButton::Select => "Select",
            MainMenuButton::Text => "Text",
        }
    }

    /// The name of the symbol on the button.
    pub open spec fn icon(self) -> &'static str {
        match self {
            MainMenuButton::Arrow => "north_west",
            MainMenuButton::Rect => "check_box_outline_blank",
            MainMenuButton::Select => "arrow_selector_tool",
            MainMenuButton::Text => "match_case",
        }
    }

    /// The identifier of the button's element.
    pub open spec fn id(self) -> &'static str {
        match self {
            MainMenuButton::Arrow => "cc_button_arrow",
            MainMenuButton::Rect => "cc_button_rect",
            MainMenuButton::Select => "cc_button_select",
            MainMenuButton::Text => "cc_button_text",
        }
    }

    /// Whether the pointer's place on the grid is marked while this tool is
    /// selected: it is for the tools that draw.
    pub open spec fn marks(self) -> bool {
        self is Arrow || self is Rect || self is Text
    }

    /// The shape that a press of the pointer at `at` starts with this tool:
    /// an arrow or a rectangle with both points at `at` and every setting at
    /// its default. The other tools start none.
    pub open spec fn starts<T>(self, at: Point<T>) -> Option<ShapeConfig<T>> {
        let options = Options {
            stroke_color: Color::Transparent,
            roughness: Roughness::Medium,
            thickness: Thickness::Thin,
        };
        match self {
            MainMenuButton::Arrow => Some(
                ShapeConfig {
                    start: at,
                    end: at,
                    details: ShapeDetails::Arrow(ArrowDetails {  }),
                    options,
                },
            ),
            MainMenuButton::Rect => Some(
                ShapeConfig {
                    start: at,
                    end: at,
                    details: ShapeDetails::Rect(RectDetails { background: Color::Transparent }),
                    options,
                },
            ),
            _ => None,
        }
    }

    /// Whether the pointer's place on the grid is marked while this tool is
    /// selected.
    pub fn has_marker(&self) -> (r: bool)
        ensures
            r == self.marks(),
    {
        match self {
            MainMenuButton::Arrow => true,
            MainMenuButton::Rect => true,
            MainMenuButton::Text => true,
            MainMenuButton::Select => false,
        }
    }

    /// The shape that a press of the pointer at `at` starts with this tool.
    pub fn new_shape<T: Copy>(&self, at: Point<T>) -> (r: Option<ShapeConfig<T>>)
        ensures
            r == self.starts(at),
    {
        match self {
            MainMenuButton::Arrow => Some(
                ShapeConfig {
                    start: at,
                    end: at,
                    details: ShapeDetails::Arrow(ArrowDetails::default()),
                    options: Options::default(),
                },
            ),
            MainMenuButton::Rect => Some(
                ShapeConfig {
                    start: at,
                    end: at,
                    details: ShapeDetails::Rect(RectDetails::default()),
                    options: Options::default(),
                },
            ),
            _ => None,
        }
    }

    /// The text that names the button.
    pub fn as_title(&self) -> (r: &'static str)
        ensures
            r == self.title(),
    {
        match self {
            MainMenuButton::Arrow => "Arrow",
            MainMenuButton::Rect => "Rectangle",
            MainMenuButton::Select => "Select",
            MainMenuButton::Text => "Text",
        }
    }

    /// The name of the symbol on the button.
    pub fn as_icon(&self) -> (r: &'static str)
        ensures
            r == self.icon(),
    {
        match self {
            MainMenuButton::Arrow => "north_west",
            MainMenuButton::Rect => "check_box_outline_blank",
            MainMenuButton::Select => "arrow_selector_tool",
            MainMenuButton::Text => "match_case",
        }
    }

    /// The identifier of the button's element.
    pub fn as_id(&self) -> (r: &'static str)
        ensures
            r == self.id(),
    {
        match self {
            MainMenuButton::Arrow => "cc_button_arrow",
            MainMenuButton::Rect => "cc_button_rect",
            MainMenuButton::Select => "cc_button_select",
            MainMenuButton::Text => "cc_button_text",
        }
    }
}

} // verus!
