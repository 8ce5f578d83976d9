use vstd::prelude::*;
use super::event::{Event, Notice};

verus! {

/// One message as it was handed to one view.
pub struct Delivery<T> {
    /// The place of the view among the registered views, counted from 0 in
    /// the order of registration.
    pub view: int,
    /// What the view was handed.
    pub notice: Notice<T>,
}

/// The registered views in the order of their registration, with the
/// record of every message that was handed to any of them.
pub struct Registry<T, V> {
    views: Vec<V>,
    sent: Ghost<Seq<Delivery<T>>>,
}

impl<T, V> Registry<T, V> {
    /// How many views are registered.
    pub closed spec fn count(&self) -> nat {
        self.views@.len()
    }

    /// Every message that was handed over so far, oldest first.
    pub closed spec fn deliveries(&self) -> Seq<Delivery<T>> {
        self.sent@
    }
}

impl<T, V: super::View<T>> Registry<T, V> {
    /// A registry without views, through which nothing was sent yet.
    pub fn new() -> (r: Self)
        ensures
            r.count() == 0,
            r.deliveries() == Seq::<Delivery<T>>::empty(),
    {
        Registry { views: Vec::new(), sent: Ghost(Seq::empty()) }
    }

    /// How many views are registered.
    pub fn len(&self) -> (n: usize)
        ensures
            n == self.count(),
    {
        self.views.len()
    }

    /// Registers `view` behind the views that are there.
    pub fn register(&mut self, view: V)
        ensures
            final(self).count() == old(self).count() + 1,
            final(self).deliveries() == old(self).deliveries(),
    {
        self.views.push(view);
    }

    /// Hands `event` to the view at place `index`. What the view answers is
    /// not looked at.
    pub fn deliver(&mut self, index: usize, event: Event<'_, T>)
        requires
            index < old(self).count(),
        ensures
            final(self).count() == old(self).count(),
            final(self).deliveries() == old(self).deliveries().push(
                Delivery { view: index as int, notice: event.notice() },
            ),
    {
        let ghost notice = event.notice();
        let _ = self.views[index].process_event(event);
        proof {
            self.sent@ = self.sent@.push(Delivery { view: index as int, notice });
        }
    }
}

} // verus!
