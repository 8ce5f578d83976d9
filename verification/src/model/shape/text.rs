use vstd::prelude::*;
use vstd::std_specs::convert::FromSpecImpl;

verus! {

/// What a text box holds beyond its two corners.
#[derive(Debug, PartialEq)]
pub struct State {
    pub content: String,
    pub font_size: FontSize,
}

impl Clone for State {
    fn clone(&self) -> (r: Self)
        ensures
            r == *self,
    {
        State { content: self.content.clone(), font_size: self.font_size }
    }
}

impl Default for State {
    fn default() -> (r: Self)
        ensures
            r.content@ == Seq::<char>::empty(),
            r.font_size == FontSize::Medium,
    {
        State { content: String::new(), font_size: FontSize::Medium }
    }
}

/// The size in which a text box is set.
#[derive(Clone, Copy, Debug, PartialEq)]
pub enum FontSize {
    Medium,
    Small,
    Large,
}

impl FontSize {
    /// The font size, as a length in pixels.
    pub open spec fn pixels(self) -> &'static str {
        match self {
            FontSize::Small => "12px",
            FontSize::Medium => "16px",
            FontSize::Large => "24px",
        }
    }
}

impl Default for FontSize {
    fn default() -> (r: Self)
        ensures
            r == FontSize::Medium,
    {
        FontSize::Medium
    }
}

impl From<&FontSize> for &'static str {
    fn from(size: &FontSize) -> (r: &'static str) {
        match size {
            FontSize::Small => "12px",
            FontSize::Medium => "16px",
            FontSize::Large => "24px",
        }
    }
}

impl FromSpecImpl<&FontSize> for &'static str {
    open spec fn obeys_from_spec() -> bool {
        true
    }

    open spec fn from_spec(size: &FontSize) -> &'static str {
        size.pixels()
    }
}

} // verus!
