use vstd::prelude::*;

verus! {

/// What a handle or a button of a selected shape stands for.
#[derive(Debug, Clone, Copy, PartialEq, Eq)]
pub enum CallbackId {
    Start,
    End,
    Thickness,
    Roughness,
    Fill,
}

/// A number that names no end of a shape.
#[derive(Debug, Clone, Copy, PartialEq, Eq)]
pub struct InvalidCallbackId {
    pub value: i32,
}

impl CallbackId {
    /// The number that stands for this identifier.
    pub open spec fn number(self) -> i32 {
        match self {
            CallbackId::Start => 0,
            CallbackId::End => 1,
            CallbackId::Thickness => 2,
            CallbackId::Roughness => 3,
            CallbackId::Fill => 4,
        }
    }
}

impl TryFrom<i32> for CallbackId {
    type Error = InvalidCallbackId;

    fn try_from(value: i32) -> (r: Result<Self, Self::Error>) {
        match value {
            0 => Ok(CallbackId::Start),
            1 => Ok(CallbackId::End),
            _ => Err(InvalidCallbackId { value }),
        }
    }
}

impl vstd::std_specs::convert::TryFromSpecImpl<i32> for CallbackId {
    open spec fn obeys_try_from_spec() -> bool {
        true
    }

    /// An end of a shape by its number: 0 is the start, 1 the end. No other
    /// number is taken.
    open spec fn try_from_spec(value: i32) -> Result<Self, InvalidCallbackId> {
        if value == 0 {
            Ok(CallbackId::Start)
        } else if value == 1 {
            Ok(CallbackId::End)
        } else {
            Err(InvalidCallbackId { value })
        }
    }
}

impl From<CallbackId> for i32 {
    fn from(value: CallbackId) -> (r: Self) {
        match value {
            CallbackId::Start => 0,
            CallbackId::End => 1,
            CallbackId::Thickness => 2,
            CallbackId::Roughness => 3,
            CallbackId::Fill => 4,
        }
    }
}

impl vstd::std_specs::convert::FromSpecImpl<CallbackId> for i32 {
    open spec fn obeys_from_spec() -> bool {
        true
    }

    open spec fn from_spec(value: CallbackId) -> Self {
        value.number()
    }
}

/// The fill colours, in the order in which the menu steps through them.
#[derive(Debug, Clone, Copy, PartialEq, Eq)]
pub enum Colors {
    Transparent,
    Red,
    Organge,
    Amber,
    Yellow,
    Lime,
    Green,
    Emerald,
    Teal,
    Cyan,
    Sky,
    Blue,
    Indigo,
    Purple,
    Fuchsia,
    Pink,
    Rose,
}

impl Colors {
    /// The colour that follows this one. After the last comes the first.
    pub open spec fn successor(self) -> Colors {
        match self {
            Colors::Transparent => Colors::Red,
            Colors::Red => Colors::Organge,
            Colors::Organge => Colors::Amber,
            Colors::Amber => Colors::Yellow,
            Colors::Yellow => Colors::Lime,
            Colors::Lime => Colors::Green,
            Colors::Green => Colors::Emerald,
            Colors::Emerald => Colors::Teal,
            Colors::Teal => Colors::Cyan,
            Colors::Cyan => Colors::Sky,
            Colors::Sky => Colors::Blue,
            Colors::Blue => Colors::Indigo,
            Colors::Indigo => Colors::Purple,
            Colors::Purple => Colors::Fuchsia,
            Colors::Fuchsia => Colors::Pink,
            Colors::Pink => Colors::Rose,
            Colors::Rose => Colors::Transparent,
        }
    }

    /// The style class that paints this colour.
    pub open spec fn class_name(self) -> &'static str {
        match self {
            Colors::Transparent => "cc_fill_none",
            Colors::Red => "cc_fill_red",
            Colors::Organge => "cc_fill_orange",
            Colors::Amber => "cc_fill_amber",
            Colors::Yellow => "cc_fill_yellow",
            Colors::Lime => "cc_fill_lime",
            Colors::Green => "cc_fill_green",
            Colors::Emerald => "cc_fill_emerald",
            Colors::Teal => "cc_fill_teal",
            Colors::Cyan => "cc_fill_cyan",
            Colors::Sky => "cc_fill_sky",
            Colors::Blue => "cc_fill_blue",
            Colors::Indigo => "cc_fill_indigo",
            Colors::Purple => "cc_fill_purple",
            Colors::Fuchsia => "cc_fill_fuchsia",
            Colors::Pink => "cc_fill_pink",
            Colors::Rose => "cc_fill_rose",
        }
    }

    /// Steps on to the next colour.
    pub fn increment(&mut self)
        ensures
            *final(self) == old(self).successor(),
    {
        *self = match *self {
            Colors::Transparent => Colors::Red,
            Colors::Red => Colors::Organge,
            Colors::Organge => Colors::Amber,
            Colors::Amber => Colors::Yellow,
            Colors::Yellow => Colors::Lime,
            Colors::Lime => Colors::Green,
            Colors::Green => Colors::Emerald,
            Colors::Emerald => Colors::Teal,
            Colors::Teal => Colors::Cyan,
            Colors::Cyan => Colors::Sky,
            Colors::Sky => Colors::Blue,
            Colors::Blue => Colors::Indigo,
            Colors::Indigo => Colors::Purple,
            Colors::Purple => Colors::Fuchsia,
            Colors::Fuchsia => Colors::Pink,
            Colors::Pink => Colors::Rose,
            Colors::Rose => Colors::Transparent,
        };
    }

    /// The style class that paints this colour.
    pub fn to_class_name(&self) -> (r: &str)
        ensures
            r == self.class_name(),
    {
        match self {
            Colors::Transparent => "cc_fill_none",
            Colors::Red => "cc_fill_red",
            Colors::Organge => "cc_fill_orange",
            Colors::Amber => "cc_fill_amber",
            Colors::Yellow => "cc_fill_yellow",
            Colors::Lime => "cc_fill_lime",
            Colors::Green => "cc_fill_green",
            Colors::Emerald => "cc_fill_emerald",
            Colors::Teal => "cc_fill_teal",
            Colors::Cyan => "cc_fill_cyan",
            Colors::Sky => "cc_fill_sky",
            Colors::Blue => "cc_fill_blue",
            Colors::Indigo => "cc_fill_indigo",
            Colors::Purple => "cc_fill_purple",
            Colors::Fuchsia => "cc_fill_fuchsia",
            Colors::Pink => "cc_fill_pink",
            Colors::Rose => "cc_fill_rose",
        }
    }
}

impl Default for Colors {
    fn default() -> (r: Self)
        ensures
            r == Colors::Transparent,
    {
        Colors::Transparent
    }
}

/// The stroke widths, in the order in which the menu steps through them.
#[derive(Debug, Clone, Copy, PartialEq, Eq)]
pub enum LineThickness {
    Thin,
    Medium,
    Thick,
}

impl LineThickness {
    /// The width that follows this one. After the last comes the first.
    pub open spec fn successor(self) -> LineThickness {
        match self {
            LineThickness::Thin => LineThickness::Medium,
            LineThickness::Medium => LineThickness::Thick,
            LineThickness::Thick => LineThickness::Thin,
        }
    }

    /// Steps on to the next width.
    pub fn increment(&mut self)
        ensures
            *final(self) == old(self).successor(),
    {
        *self = match *self {
            LineThickness::Thin => LineThickness::Medium,
            LineThickness::Medium => LineThickness::Thick,
            LineThickness::Thick => LineThickness::Thin,
        };
    }
}

impl Default for LineThickness {
    fn default() -> (r: Self)
        ensures
            r == LineThickness::Thin,
    {
        LineThickness::Thin
    }
}

/// The degrees of wobble, in the order in which the menu steps through
/// them.
#[derive(Debug, Clone, Copy, PartialEq, Eq)]
pub enum Roughness {
    Low,
    Medium,
    High,
}

impl Roughness {
    /// The degree that follows this one. After the last comes the first.
    pub open spec fn successor(self) -> Roughness {
        match self {
            Roughness::Low => Roughness::Medium,
            Roughness::Medium => Roughness::High,
            Roughness::High => Roughness::Low,
        }
    }

    /// Steps on to the next degree.
    pub fn increment(&mut self)
        ensures
            *final(self) == old(self).successor(),
    {
        *self = match *self {
            Roughness::Low => Roughness::Medium,
            Roughness::Medium => Roughness::High,
            Roughness::High => Roughness::Low,
        };
    }
}

impl Default for Roughness {
    fn default() -> (r: Self)
        ensures
            r == Roughness::Medium,
    {
        Roughness::Medium
    }
}

} // verus!
