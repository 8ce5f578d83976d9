use vstd::prelude::*;
use vstd::std_specs::convert::FromSpecImpl;

verus! {

/// The colour of a stroke or of a fill.
#[derive(Clone, Copy, Debug, PartialEq)]
pub enum Color {
    Transparent,
    Red,
    Organge,
    Amber,
    Yellow,
    Lime,
    Green,
    Emerald,
    Teal,
    Cyan,
    Sky,
    Blue,
    Indigo,
    Purple,
    Fuchsia,
    Pink,
    Rose,
}

impl Color {
    /// The style class that paints this colour.
    pub open spec fn class_name(self) -> &'static str {
        match self {
            Color::Transparent => "cc_fill_none",
            Color::Red => "cc_fill_red",
            Color::Organge => "cc_fill_orange",
            Color::Amber => "cc_fill_amber",
            Color::Yellow => "cc_fill_yellow",
            Color::Lime => "cc_fill_lime",
            Color::Green => "cc_fill_green",
            Color::Emerald => "cc_fill_emerald",
            Color::Teal => "cc_fill_teal",
            Color::Cyan => "cc_fill_cyan",
            Color::Sky => "cc_fill_sky",
            Color::Blue => "cc_fill_blue",
            Color::Indigo => "cc_fill_indigo",
            Color::Purple => "cc_fill_purple",
            Color::Fuchsia => "cc_fill_fuchsia",
            Color::Pink => "cc_fill_pink",
            Color::Rose => "cc_fill_rose",
        }
    }
}

impl Default for Color {
    fn default() -> (r: Self)
        ensures
            r == Color::Transparent,
    {
        Color::Transparent
    }
}

impl From<&Color> for &'static str {
    fn from(color: &Color) -> (r: &'static str) {
        match color {
            Color::Transparent => "cc_fill_none",
            Color::Red => "cc_fill_red",
            Color::Organge => "cc_fill_orange",
            Color::Amber => "cc_fill_amber",
            Color::Yellow => "cc_fill_yellow",
            Color::Lime => "cc_fill_lime",
            Color::Green => "cc_fill_green",
            Color::Emerald => "cc_fill_emerald",
            Color::Teal => "cc_fill_teal",
            Color::Cyan => "cc_fill_cyan",
            Color::Sky => "cc_fill_sky",
            Color::Blue => "cc_fill_blue",
            Color::Indigo => "cc_fill_indigo",
            Color::Purple => "cc_fill_purple",
            Color::Fuchsia => "cc_fill_fuchsia",
            Color::Pink => "cc_fill_pink",
            Color::Rose => "cc_fill_rose",
        }
    }
}

impl FromSpecImpl<&Color> for &'static str {
    open spec fn obeys_from_spec() -> bool {
        true
    }

    open spec fn from_spec(color: &Color) -> &'static str {
        color.class_name()
    }
}

/// How strongly a stroke wobbles.
#[derive(Clone, Copy, Debug, PartialEq)]
pub enum Roughness {
    Low,
    Medium,
    High,
}

impl Default for Roughness {
    fn default() -> (r: Self)
        ensures
            r == Roughness::Medium,
    {
        Roughness::Medium
    }
}

/// How wide a stroke is drawn.
#[derive(Clone, Copy, Debug, PartialEq)]
pub enum Thickness {
    Thin,
    Medium,
    Thick,
}

impl Thickness {
    /// The stroke width, as the text of a number.
    pub open spec fn stroke_width(self) -> &'static str {
        match self {
            Thickness::Thin => "1.0",
            Thickness::Medium => "2.0",
            Thickness::Thick => "3.0",
        }
    }
}

impl Default for Thickness {
    fn default() -> (r: Self)
        ensures
            r == Thickness::Thin,
    {
        Thickness::Thin
    }
}

impl From<&Thickness> for &'static str {
    fn from(thickness: &Thickness) -> (r: &'static str) {
        match thickness {
            Thickness::Thin => "1.0",
            Thickness::Medium => "2.0",
            Thickness::Thick => "3.0",
        }
    }
}

impl FromSpecImpl<&Thickness> for &'static str {
    open spec fn obeys_from_spec() -> bool {
        true
    }

    open spec fn from_spec(thickness: &Thickness) -> &'static str {
        thickness.stroke_width()
    }
}

} // verus!
