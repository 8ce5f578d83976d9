use vstd::prelude::*;
use super::options::Color;

verus! {

/// What a rectangle holds beyond its two corners.
#[derive(Clone, Copy, Debug, PartialEq)]
pub struct State {
    pub background: Color,
}

impl Default for State {
    fn default() -> (r: Self)
        ensures
            r == (State { background: Color::Transparent }),
    {
        State { background: Color::Transparent }
    }
}

} // verus!
