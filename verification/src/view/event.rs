use vstd::prelude::*;
use crate::model::{EventHistory, Guid, ShapeConfig};

verus! {

/// What the model tells a view.
pub enum Event<'a, T> {
    /// Every shape there is, each once, in no particular order. What the
    /// view held before is void.
    Reload { shapes: Vec<(&'a Guid, &'a ShapeConfig<T>)> },
    /// One change that was made.
    Modify { event: EventHistory<T> },
}

/// What a view has been told, as a mathematical value.
pub enum Notice<T> {
    Reload { shapes: Seq<(Guid, ShapeConfig<T>)> },
    Modify { event: EventHistory<T> },
}

impl<'a, T> Event<'a, T> {
    /// The content of this message.
    pub open spec fn notice(self) -> Notice<T> {
        match self {
            Event::Reload { shapes } => Notice::Reload {
                shapes: Seq::new(shapes@.len(), |i: int| (*shapes@[i].0, *shapes@[i].1)),
            },
            Event::Modify { event } => Notice::Modify { event },
        }
    }
}

/// Whether `pairs` lists exactly the entries of `shapes`, each once.
pub open spec fn enumerates<T>(
    pairs: Seq<(Guid, ShapeConfig<T>)>,
    shapes: Map<Guid, ShapeConfig<T>>,
) -> bool {
    &&& pairs.len() == shapes.dom().len()
    &&& forall|i: int|
        0 <= i < pairs.len() ==> shapes.contains_key(#[trigger] pairs[i].0) && shapes[pairs[i].0]
            == pairs[i].1
    &&& forall|g: Guid| #[trigger]
        shapes.contains_key(g) ==> exists|i: int| 0 <= i < pairs.len() && pairs[i].0 == g
}

impl<T> Notice<T> {
    /// Whether this is a reload that lists exactly the entries of `shapes`.
    pub open spec fn reloads(self, shapes: Map<Guid, ShapeConfig<T>>) -> bool {
        match self {
            Notice::Reload { shapes: pairs } => enumerates(pairs, shapes),
            Notice::Modify { .. } => false,
        }
    }
}

} // verus!
