//! The shape model: the shapes, the history of what was done to them, and
//! the views that are told of every change.

use vstd::prelude::*;
use std::collections::HashMap;
use vstd::std_specs::iter::IteratorSpec;
use crate::view::{Delivery, Notice, Registry};

pub mod events;
pub mod guid;
pub mod laws;
pub mod shape;
pub mod state;

pub use crate::types::Guid;
pub use events::{Event, EventHistory};
pub use shape::{ArrowDetails, Options, RectDetails, ShapeDetails, TextDetails};
pub use shape::{PartialShapeConfig, ShapeConfig};
pub use state::ModelState;

verus! {

/// What is handed over when each of `views` views is told `note`, in the
/// order of their registration; nothing where there is no `note`.
pub open spec fn announced<T>(views: nat, note: Option<EventHistory<T>>) -> Seq<Delivery<T>> {
    match note {
        Some(event) => Seq::new(
            views,
            |i: int| Delivery { view: i, notice: Notice::Modify { event } },
        ),
        None => Seq::empty(),
    }
}

/// Whether `sent` hands each of `views` views one reload that lists exactly
/// `shapes`, in the order of their registration.
pub open spec fn reloading<T>(
    sent: Seq<Delivery<T>>,
    views: nat,
    shapes: Map<Guid, ShapeConfig<T>>,
) -> bool {
    &&& sent.len() == views
    &&& forall|i: int|
        0 <= i < views ==> (#[trigger] sent[i]).view == i && sent[i].notice.reloads(shapes)
}

/// Every shape with its identity, each once, in no particular order.
fn snapshot<T>(shapes: &HashMap<Guid, ShapeConfig<T>>) -> (pairs: Vec<(&Guid, &ShapeConfig<T>)>)
    ensures
        (crate::view::Event::Reload { shapes: pairs }).notice().reloads(shapes@),
{
    broadcast use vstd::std_specs::hash::group_hash_axioms;
    let mut pairs: Vec<(&Guid, &ShapeConfig<T>)> = Vec::new();
    let ghost all = shapes.iter().remaining();
    for pair in it: shapes.iter()
        invariant
            it.seq() == all,
            pairs@.len() == it.index(),
            forall|j: int| 0 <= j < pairs@.len() ==> pairs@[j] == all[j],
    {
        pairs.push(pair);
    }
    proof {
        let listed = (crate::view::Event::Reload { shapes: pairs }).notice()->Reload_shapes;
        assert(pairs@ =~= all);
        assert forall|g: Guid| #[trigger] shapes@.contains_key(g) implies exists|i: int|
            0 <= i < listed.len() && listed[i].0 == g by {
            assert(all.contains((&g, &shapes@[g])));
            let i = choose|i: int| 0 <= i < all.len() && all[i] == (&g, &shapes@[g]);
            assert(listed[i].0 == g);
        }
    }
    pairs
}

/// The document: its shapes, its history and its views.
///
/// `V` is the type of the views. Left out, it is a boxed view of any kind.
#[verifier::reject_recursive_types(T)]
pub struct Model<T, V = Box<dyn crate::view::View<T>>> {
    guid_generator: guid::GuidGenerator,
    shapes: HashMap<Guid, shape::ShapeConfig<T>>,
    history: Vec<EventHistory<T>>,
    history_index: usize,
    views: Registry<T, V>,
}

impl<T, V> View for Model<T, V> {
    type V = ModelState<T>;

    closed spec fn view(&self) -> ModelState<T> {
        ModelState {
            shapes: self.shapes@,
            history: self.history@,
            cursor: self.history_index as nat,
            next_guid: self.guid_generator.upcoming(),
        }
    }
}

impl<T, V> Model<T, V> {
    /// How many views are registered.
    pub closed spec fn view_count(&self) -> nat {
        self.views.count()
    }

    /// Every message that this model has handed to a view, oldest first.
    pub closed spec fn deliveries(&self) -> Seq<Delivery<T>> {
        self.views.deliveries()
    }

    /// The invariant of the model.
    pub open spec fn wf(&self) -> bool {
        self@.wf()
    }
}

impl<T: Copy, V: crate::view::View<T>> Default for Model<T, V> {
    fn default() -> (r: Self)
        ensures
            r@ == ModelState::<T>::initial(),
            r.view_count() == 0,
            r.deliveries() == Seq::<Delivery<T>>::empty(),
            r.wf(),
            r@.in_step(),
    {
        Self::new()
    }
}

impl<T: Copy, V: crate::view::View<T>> Model<T, V> {
    /// A model without shapes, history or views.
    pub fn new() -> (r: Self)
        ensures
            r@ == ModelState::<T>::initial(),
            r.view_count() == 0,
            r.deliveries() == Seq::<Delivery<T>>::empty(),
            r.wf(),
            r@.in_step(),
    {
        Self {
            guid_generator: guid::GuidGenerator::new(),
            shapes: HashMap::new(),
            history: Vec::new(),
            history_index: 0,
            views: Registry::new(),
        }
    }

    /// The shape with the identity `guid`, if there is one.
    pub fn get_shape(&self, guid: Guid) -> (r: Option<&shape::ShapeConfig<T>>)
        ensures
            match r {
                Some(config) => self@.shapes.contains_key(guid) && *config == self@.shapes[guid],
                None => !self@.shapes.contains_key(guid),
            },
    {
        broadcast use vstd::std_specs::hash::group_hash_axioms;
        self.shapes.get(&guid)
    }

    /// The facts on record, oldest first.
    pub fn history(&self) -> (r: &Vec<EventHistory<T>>)
        ensures
            r@ == self@.history,
    {
        &self.history
    }

    /// How many facts of the history are in effect.
    pub fn history_index(&self) -> (r: usize)
        ensures
            r == self@.cursor,
    {
        self.history_index
    }

    /// The identity that the next new shape gets.
    pub fn next_guid(&self) -> (r: Guid)
        ensures
            r == self@.next_guid,
    {
        self.guid_generator.peek()
    }

    /// Whether `event` would be merged into the last fact on record.
    fn merges(&self, event: &Event<T>) -> (r: bool)
        ensures
            r == self@.merges(*event),
    {
        broadcast use vstd::std_specs::hash::group_hash_axioms;
        match event {
            Event::Modify { guid, .. } => {
                let n = self.history.len();
                if n > 0 && self.shapes.contains_key(guid) {
                    match &self.history[n - 1] {
                        EventHistory::Modify { guid: own, committed, .. } => *own == *guid
                            && !*committed,
                        _ => false,
                    }
                } else {
                    false
                }
            },
            _ => false,
        }
    }

    /// Makes the change that `event` asks for to the shapes and returns it
    /// as a fact. The history stays as it is and no view is told.
    fn mutate(&mut self, event: Event<T>) -> (fact: Option<EventHistory<T>>)
        requires
            old(self).wf(),
            match event {
                Event::Add { guid: Some(g), .. } => g < old(self)@.next_guid,
                Event::Add { guid: None, .. } => old(self)@.next_guid < i32::MAX,
                _ => true,
            },
        ensures
            final(self)@ == old(self)@.mutated(event),
            fact == old(self)@.outcome(event),
            final(self).view_count() == old(self).view_count(),
            final(self).deliveries() == old(self).deliveries(),
            final(self).wf(),
    {
        broadcast use vstd::std_specs::hash::group_hash_axioms;
        let fact = match event {
            Event::Add { guid, config } => {
                let guid = match guid {
                    Some(guid) => guid,
                    None => self.guid_generator.next(),
                };
                self.shapes.insert(guid, config.clone());
                Some(EventHistory::Add { guid, config })
            },
            Event::Remove { guid } => match self.shapes.remove(&guid) {
                Some(config) => Some(EventHistory::Remove { guid, config }),
                None => None,
            },
            Event::Modify { guid, config } => match self.shapes.get(&guid) {
                Some(current) => {
                    let from = current.clone();
                    let mut to = current.clone();
                    to.update(config);
                    self.shapes.insert(guid, to.clone());
                    Some(EventHistory::Modify { guid, from, to, committed: false })
                },
                None => None,
            },
            Event::Checkpoint => None,
        };
        assert(self@.shapes =~= old(self)@.mutated(event).shapes);
        fact
    }

    /// Hands `fact` to every view, in the order in which they were
    /// registered. What a view answers is not looked at.
    fn notify(&mut self, fact: &EventHistory<T>)
        ensures
            final(self)@ == old(self)@,
            final(self).view_count() == old(self).view_count(),
            final(self).deliveries() == old(self).deliveries() + announced(
                old(self).view_count(),
                Some(*fact),
            ),
    {
        let n: usize = self.views.len();
        let mut i: usize = 0;
        while i < n
            invariant
                0 <= i <= n,
                n == self.view_count(),
                self@ == old(self)@,
                self.deliveries() == old(self).deliveries() + announced(n as nat, Some(*fact)).take(
                    i as int,
                ),
            decreases n - i,
        {
            self.views.deliver(i, crate::view::Event::Modify { event: fact.clone() });
            i += 1;
        }
    }

    /// Puts `to` in place of the `to` of the last fact on record, if that is
    /// a modification, and returns the fact as it then stands.
    fn merge_into_last(&mut self, to: ShapeConfig<T>) -> (last: EventHistory<T>)
        requires
            old(self)@.history.len() > 0,
        ensures
            final(self)@ == (ModelState {
                history: old(self)@.history.update(
                    old(self)@.history.len() - 1,
                    old(self)@.history.last().leading_to(to),
                ),
                ..old(self)@
            }),
            last == old(self)@.history.last().leading_to(to),
            final(self).view_count() == old(self).view_count(),
            final(self).deliveries() == old(self).deliveries(),
    {
        let last = match self.history.pop() {
            Some(EventHistory::Modify { guid, from, to: _, committed }) => EventHistory::Modify {
                guid,
                from,
                to,
                committed,
            },
            Some(other) => other,
            None => EventHistory::Checkpoint,
        };
        self.history.push(last.clone());
        assert(self.history@ =~= old(self).history@.update(old(self).history@.len() - 1, last));
        last
    }

    /// Closes the last fact on record to merging, if it is a modification,
    /// and returns the fact as it then stands.
    fn seal_last(&mut self) -> (last: EventHistory<T>)
        requires
            old(self)@.history.len() > 0,
        ensures
            final(self)@ == (ModelState {
                history: old(self)@.history.update(
                    old(self)@.history.len() - 1,
                    old(self)@.history.last().sealed(),
                ),
                ..old(self)@
            }),
            last == old(self)@.history.last().sealed(),
            final(self).view_count() == old(self).view_count(),
            final(self).deliveries() == old(self).deliveries(),
    {
        let last = match self.history.pop() {
            Some(EventHistory::Modify { guid, from, to, committed: _ }) => EventHistory::Modify {
                guid,
                from,
                to,
                committed: true,
            },
            Some(other) => other,
            None => EventHistory::Checkpoint,
        };
        self.history.push(last.clone());
        assert(self.history@ =~= old(self).history@.update(old(self).history@.len() - 1, last));
        last
    }

    /// Carries out the command `event` and tells every view, but puts no new
    /// fact on record: the new fact is returned for the caller to record.
    /// Where the change is merged into the last fact on record, or where
    /// there is no change, nothing is returned.
    fn apply(&mut self, event: Event<T>) -> (fact: Option<EventHistory<T>>)
        requires
            old(self).wf(),
            ModelState::admits(event),
            event is Add ==> old(self)@.next_guid < i32::MAX,
        ensures
            fact == if old(self)@.records(event) {
                old(self)@.outcome(event)
            } else {
                None
            },
            final(self)@ == if old(self)@.records(event) {
                old(self)@.mutated(event)
            } else {
                old(self)@.process(event)
            },
            final(self).view_count() == old(self).view_count(),
            final(self).deliveries() == old(self).deliveries() + announced(
                old(self).view_count(),
                old(self)@.announces(event),
            ),
            final(self).wf(),
    {
        let merging = self.merges(&event);
        let closing = match &event {
            Event::Checkpoint => true,
            _ => false,
        };
        match self.mutate(event) {
            Some(fact) => {
                if merging {
                    match fact {
                        EventHistory::Modify { to, .. } => {
                            let last = self.merge_into_last(to);
                            self.notify(&last);
                        },
                        _ => {},
                    }
                    None
                } else {
                    self.notify(&fact);
                    Some(fact)
                }
            },
            None => {
                if closing && self.history.len() > 0 {
                    let last = self.seal_last();
                    self.notify(&last);
                }
                None
            },
        }
    }

    /// Cuts the history at the cursor, puts `history` on record there and
    /// moves the cursor behind it.
    fn add_to_history(&mut self, history: EventHistory<T>)
        requires
            old(self)@.cursor <= old(self)@.history.len(),
        ensures
            final(self)@ == (ModelState {
                history: old(self)@.history.take(old(self)@.cursor as int).push(history),
                cursor: old(self)@.cursor + 1,
                ..old(self)@
            }),
            final(self).view_count() == old(self).view_count(),
            final(self).deliveries() == old(self).deliveries(),
    {
        self.history.truncate(self.history_index);
        self.history.push(history);
        self.history_index = self.history.len();
    }

    /// Carries out the command `event`, records it, and tells every view.
    ///
    /// Returns the identity of the shape that was added, removed or
    /// modified, and `None` for a checkpoint or where the shape that was to
    /// be removed or modified is not there. In that last case nothing
    /// changes and no view is told.
    ///
    /// An addition must leave the choice of the identity to the model.
    pub fn process_event(&mut self, event: Event<T>) -> (r: Option<Guid>)
        requires
            old(self).wf(),
            ModelState::admits(event),
            event is Add ==> old(self)@.next_guid < i32::MAX,
        ensures
            final(self)@ == old(self)@.process(event),
            r == old(self)@.answer(event),
            final(self).view_count() == old(self).view_count(),
            final(self).deliveries() == old(self).deliveries() + announced(
                old(self).view_count(),
                old(self)@.announces(event),
            ),
            final(self).wf(),
            old(self)@.in_step() && !old(self)@.merges_into_undone(event) ==> final(self)@.in_step(),
    {
        proof {
            if self@.in_step() && !self@.merges_into_undone(event) {
                laws::lemma_process_in_step(self@, event);
            }
        }
        let merged = if self.merges(&event) {
            match &event {
                Event::Modify { guid, .. } => Some(*guid),
                _ => None,
            }
        } else {
            None
        };
        match self.apply(event) {
            Some(history) => {
                let guid = history.guid();
                self.add_to_history(history);
                guid
            },
            None => merged,
        }
    }

    /// Takes back the last fact in effect, and tells every view what that
    /// changed. Nothing is put on record. With no fact in effect nothing
    /// happens.
    pub fn undo(&mut self)
        requires
            old(self).wf(),
        ensures
            final(self)@ == old(self)@.undo(),
            final(self).view_count() == old(self).view_count(),
            final(self).deliveries() == old(self).deliveries() + announced(
                old(self).view_count(),
                old(self)@.undo_announces(),
            ),
            final(self).wf(),
            old(self)@.in_step() ==> final(self)@.in_step(),
    {
        proof {
            if self@.in_step() {
                laws::lemma_undo_in_step(self@);
            }
        }
        if self.history_index > 0 {
            self.history_index -= 1;
            let event = Event::from(self.history[self.history_index].revert());
            match self.mutate(event) {
                Some(fact) => self.notify(&fact),
                None => {},
            }
        }
    }

    /// Makes the first undone fact again, and tells every view what that
    /// changed. Nothing is put on record. With no undone fact nothing
    /// happens.
    pub fn redo(&mut self)
        requires
            old(self).wf(),
        ensures
            final(self)@ == old(self)@.redo(),
            final(self).view_count() == old(self).view_count(),
            final(self).deliveries() == old(self).deliveries() + announced(
                old(self).view_count(),
                old(self)@.redo_announces(),
            ),
            final(self).wf(),
            old(self)@.in_step() ==> final(self)@.in_step(),
    {
        proof {
            if self@.in_step() {
                laws::lemma_redo_in_step(self@);
            }
        }
        if self.history_index < self.history.len() {
            let event = Event::from(self.history[self.history_index].clone());
            self.history_index += 1;
            match self.mutate(event) {
                Some(fact) => self.notify(&fact),
                None => {},
            }
        }
    }

    /// Registers `view` behind the views that are there, and hands it a
    /// reload with every shape there is. From then on the view is told of
    /// every change.
    pub fn add_view(&mut self, view: V)
        ensures
            final(self)@ == old(self)@,
            final(self).view_count() == old(self).view_count() + 1,
            final(self).deliveries().drop_last() == old(self).deliveries(),
            final(self).deliveries().last().view == old(self).view_count(),
            final(self).deliveries().last().notice.reloads(old(self)@.shapes),
    {
        let place = self.views.len();
        self.views.register(view);
        self.views.deliver(place, crate::view::Event::Reload { shapes: snapshot(&self.shapes) });
    }

    /// Hands every view a reload with every shape there is, in the order in
    /// which the views were registered.
    pub fn reload_views(&mut self)
        ensures
            final(self)@ == old(self)@,
            final(self).view_count() == old(self).view_count(),
            final(self).deliveries().len() == old(self).deliveries().len() + old(
                self,
            ).view_count(),
            final(self).deliveries().take(old(self).deliveries().len() as int) == old(
                self,
            ).deliveries(),
            reloading(
                final(self).deliveries().skip(old(self).deliveries().len() as int),
                old(self).view_count(),
                old(self)@.shapes,
            ),
    {
        let n: usize = self.views.len();
        let ghost before = self.deliveries();
        let mut i: usize = 0;
        while i < n
            invariant
                0 <= i <= n,
                n == self.view_count(),
                self@ == old(self)@,
                before == old(self).deliveries(),
                self.deliveries().len() == before.len() + i,
                self.deliveries().take(before.len() as int) == before,
                reloading(self.deliveries().skip(before.len() as int), i as nat, self@.shapes),
            decreases n - i,
        {
            let ghost sent = self.deliveries();
            self.views.deliver(i, crate::view::Event::Reload { shapes: snapshot(&self.shapes) });
            proof {
                assert forall|j: int| 0 <= j < i + 1 implies (#[trigger] self.deliveries().skip(
                    before.len() as int,
                )[j]).view == j && self.deliveries().skip(before.len() as int)[j].notice.reloads(
                    self@.shapes,
                ) by {
                    if j < i {
                        assert(self.deliveries().skip(before.len() as int)[j] == sent.skip(
                            before.len() as int,
                        )[j]);
                    }
                }
            }
            i += 1;
        }
    }
}

} // verus!
