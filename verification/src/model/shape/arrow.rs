use vstd::prelude::*;

verus! {

/// What an arrow holds beyond its two end points: nothing.
#[derive(Clone, Copy, Debug, PartialEq)]
pub struct State {}

impl Default for State {
    fn default() -> (r: Self)
        ensures
            r == (State {  }),
    {
        State {  }
    }
}

} // verus!
