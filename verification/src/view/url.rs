use vstd::prelude::*;
use super::{Event, Notice, ViewError};

verus! {

/// A view that keeps nothing of what it is told.
pub struct UrlView {}

impl UrlView {
    /// A view that has been told nothing yet.
    pub fn new() -> (r: Self) {
        UrlView {  }
    }
}

impl<T> super::View<T> for UrlView {
    /// This view never fails.
    open spec fn answers(&self, notice: Notice<T>, answer: Result<(), ViewError>) -> bool {
        answer is Ok
    }

    fn process_event(&mut self, event: Event<'_, T>) -> (r: Result<(), ViewError>) {
        Ok(())
    }
}

} // verus!
