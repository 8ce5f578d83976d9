//! What stands between the model and whatever renders it.

use vstd::prelude::*;

mod event;
pub mod identifier;
mod registry;
pub mod url;

pub use event::enumerates;
pub use event::Event;
pub use event::Notice;
pub use registry::Delivery;
pub use registry::Registry;

verus! {

/// Why a view could not follow a message.
#[derive(Debug)]
pub struct ViewError {
    pub message: String,
}

/// An observer of the model. The model calls `process_event` once for every
/// message, in the order in which things happen, and goes on whatever the
/// view answers.
pub trait View<T> {
    /// Whether `answer` is one that this view may give to the message
    /// `notice`. A view that says nothing of its answers may give any.
    open spec fn answers(&self, notice: Notice<T>, answer: Result<(), ViewError>) -> bool {
        true
    }

    /// Takes one message, and answers whether the view could follow it.
    fn process_event(&mut self, event: Event<'_, T>) -> (r: Result<(), ViewError>)
        ensures
            old(self).answers(event.notice(), r),
    ;
}

impl<T> View<T> for Box<dyn View<T>> {
    /// A view in a box answers as the view itself does.
    open spec fn answers(&self, notice: Notice<T>, answer: Result<(), ViewError>) -> bool {
        (**self).answers(notice, answer)
    }

    /// Hands the message on to the view in the box and returns its answer.
    fn process_event(&mut self, event: Event<'_, T>) -> (r: Result<(), ViewError>) {
        (**self).process_event(event)
    }
}

} // verus!
