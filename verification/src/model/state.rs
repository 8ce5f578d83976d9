//! The model as a mathematical value, and what each operation makes of it.

use vstd::prelude::*;
use super::events::{Event, EventHistory};
use super::shape::ShapeConfig;
use crate::types::Guid;

verus! {

impl<T> EventHistory<T> {
    /// The shapes after this fact, given the shapes before it.
    pub open spec fn applied_to(self, shapes: Map<Guid, ShapeConfig<T>>) -> Map<
        Guid,
        ShapeConfig<T>,
    > {
        match self {
            EventHistory::Add { guid, config } => shapes.insert(guid, config),
            EventHistory::Remove { guid, .. } => shapes.remove(guid),
            EventHistory::Modify { guid, to, .. } => shapes.insert(guid, to),
            EventHistory::Checkpoint => shapes,
        }
    }

    /// Whether this fact is a modification of `guid` that is still open to
    /// merging.
    pub open spec fn pending(self, guid: Guid) -> bool {
        match self {
            EventHistory::Modify { guid: own, committed, .. } => own == guid && !committed,
            _ => false,
        }
    }

    /// This fact with `to` as the state it leads to, if it is a modification;
    /// else the fact itself.
    pub open spec fn leading_to(self, to: ShapeConfig<T>) -> Self {
        match self {
            EventHistory::Modify { guid, from, committed, .. } => EventHistory::Modify {
                guid,
                from,
                to,
                committed,
            },
            _ => self,
        }
    }

    /// This fact, closed to merging if it is a modification; else the fact
    /// itself.
    pub open spec fn sealed(self) -> Self {
        match self {
            EventHistory::Modify { guid, from, to, .. } => EventHistory::Modify {
                guid,
                from,
                to,
                committed: true,
            },
            _ => self,
        }
    }
}

/// All that the model holds, but for its views.
pub struct ModelState<T> {
    /// The shapes that were added and not removed since.
    pub shapes: Map<Guid, ShapeConfig<T>>,
    /// The facts on record, oldest first.
    pub history: Seq<EventHistory<T>>,
    /// How many facts of `history`, from its start, are in effect. The rest
    /// were undone and can be made again.
    pub cursor: nat,
    /// The identity that the next new shape gets.
    pub next_guid: Guid,
}

impl<T> ModelState<T> {
    /// The model before anything was asked of it.
    pub open spec fn initial() -> Self {
        ModelState { shapes: Map::empty(), history: Seq::empty(), cursor: 0, next_guid: 0 }
    }

    /// What holds of the model at all times: the cursor lies within the
    /// history, and every identity in use was given out by the generator.
    pub open spec fn wf(self) -> bool {
        &&& self.cursor <= self.history.len()
        &&& 0 <= self.next_guid
        &&& forall|g: Guid| #[trigger] self.shapes.contains_key(g) ==> g < self.next_guid
        &&& forall|i: int|
            0 <= i < self.history.len() ==> match (#[trigger] self.history[i]).target() {
                Some(g) => g < self.next_guid,
                None => true,
            }
    }

    /// Whether `cmd` is one that a caller may issue: an addition leaves the
    /// choice of the identity to the model.
    pub open spec fn admits(cmd: Event<T>) -> bool {
        match cmd {
            Event::Add { guid, .. } => guid is None,
            _ => true,
        }
    }

    /// The change that `cmd` makes to the shapes, as a fact; `None` where it
    /// makes none: a checkpoint, or a removal or modification of a shape that
    /// is not there.
    pub open spec fn outcome(self, cmd: Event<T>) -> Option<EventHistory<T>> {
        match cmd {
            Event::Add { guid, config } => Some(
                EventHistory::Add {
                    guid: match guid {
                        Some(g) => g,
                        None => self.next_guid,
                    },
                    config,
                },
            ),
            Event::Remove { guid } => if self.shapes.contains_key(guid) {
                Some(EventHistory::Remove { guid, config: self.shapes[guid] })
            } else {
                None
            },
            Event::Modify { guid, config } => if self.shapes.contains_key(guid) {
                Some(
                    EventHistory::Modify {
                        guid,
                        from: self.shapes[guid],
                        to: self.shapes[guid].patched(config),
                        committed: false,
                    },
                )
            } else {
                None
            },
            Event::Checkpoint => None,
        }
    }

    /// The state once `cmd` has changed the shapes, the history left as it
    /// is. An addition that names no identity uses up the next one.
    pub open spec fn mutated(self, cmd: Event<T>) -> Self {
        ModelState {
            shapes: match self.outcome(cmd) {
                Some(fact) => fact.applied_to(self.shapes),
                None => self.shapes,
            },
            next_guid: match cmd {
                Event::Add { guid: None, .. } => (self.next_guid + 1) as Guid,
                _ => self.next_guid,
            },
            ..self
        }
    }

    /// Whether `cmd` is merged into the last fact on record: it modifies a
    /// shape that is there, and that last fact is a modification of the same
    /// shape that no checkpoint has closed.
    pub open spec fn merges(self, cmd: Event<T>) -> bool {
        match cmd {
            Event::Modify { guid, .. } => self.shapes.contains_key(guid) && self.history.len() > 0
                && self.history.last().pending(guid),
            _ => false,
        }
    }

    /// Whether `cmd` puts a new fact on record.
    pub open spec fn records(self, cmd: Event<T>) -> bool {
        self.outcome(cmd) is Some && !self.merges(cmd)
    }

    /// The state after the command `cmd`.
    ///
    /// A change that is not merged cuts the history at the cursor, is put on
    /// record there, and moves the cursor behind it. A change that is merged
    /// replaces the `to` of the last fact on record. A checkpoint closes the
    /// last fact on record if that is a modification. Anything else leaves
    /// the state as it is.
    pub open spec fn process(self, cmd: Event<T>) -> Self {
        let after = self.mutated(cmd);
        match self.outcome(cmd) {
            Some(fact) => if self.merges(cmd) {
                ModelState {
                    history: self.history.update(
                        self.history.len() - 1,
                        self.history.last().leading_to(fact->Modify_to),
                    ),
                    ..after
                }
            } else {
                ModelState {
                    history: self.history.take(self.cursor as int).push(fact),
                    cursor: self.cursor + 1,
                    ..after
                }
            },
            None => if cmd is Checkpoint && self.history.len() > 0 {
                ModelState {
                    history: self.history.update(
                        self.history.len() - 1,
                        self.history.last().sealed(),
                    ),
                    ..after
                }
            } else {
                after
            },
        }
    }

    /// The shape that the command `cmd` touches, if it touches one in this
    /// state.
    pub open spec fn answer(self, cmd: Event<T>) -> Option<Guid> {
        match self.outcome(cmd) {
            Some(fact) => fact.target(),
            None => None,
        }
    }

    /// What every view is told of the command `cmd`: the new fact; for a
    /// merged change the fact it was merged into; for a checkpoint the last
    /// fact on record, if there is one; nothing where a removal or a
    /// modification finds no shape.
    pub open spec fn announces(self, cmd: Event<T>) -> Option<EventHistory<T>> {
        match self.outcome(cmd) {
            Some(fact) => if self.merges(cmd) {
                Some(self.process(cmd).history.last())
            } else {
                Some(fact)
            },
            None => if cmd is Checkpoint && self.history.len() > 0 {
                Some(self.process(cmd).history.last())
            } else {
                None
            },
        }
    }

    /// The command that takes back the last fact in effect.
    pub open spec fn undo_command(self) -> Event<T>
        recommends
            0 < self.cursor <= self.history.len(),
    {
        self.history[self.cursor - 1].inverse().command()
    }

    /// The state after `undo`: the cursor moves back by one and the fact it
    /// passes is taken back. With no fact in effect nothing changes.
    pub open spec fn undo(self) -> Self {
        if 0 < self.cursor <= self.history.len() {
            ModelState { cursor: (self.cursor - 1) as nat, ..self.mutated(self.undo_command()) }
        } else {
            self
        }
    }

    /// What every view is told of `undo`.
    pub open spec fn undo_announces(self) -> Option<EventHistory<T>> {
        if 0 < self.cursor <= self.history.len() {
            self.outcome(self.undo_command())
        } else {
            None
        }
    }

    /// The command that makes the first undone fact again.
    pub open spec fn redo_command(self) -> Event<T>
        recommends
            self.cursor < self.history.len(),
    {
        self.history[self.cursor as int].command()
    }

    /// The state after `redo`: the fact at the cursor is made again and the
    /// cursor moves behind it. With no undone fact nothing changes.
    pub open spec fn redo(self) -> Self {
        if self.cursor < self.history.len() {
            ModelState { cursor: self.cursor + 1, ..self.mutated(self.redo_command()) }
        } else {
            self
        }
    }

    /// What every view is told of `redo`.
    pub open spec fn redo_announces(self) -> Option<EventHistory<T>> {
        if self.cursor < self.history.len() {
            self.outcome(self.redo_command())
        } else {
            None
        }
    }
}

impl<T> EventHistory<T> {
    /// Whether this fact can be made from `shapes`: the shape that it adds
    /// is not there yet, the shape that it removes or modifies is there as
    /// the fact has it. A checkpoint is never made.
    pub open spec fn fits(self, shapes: Map<Guid, ShapeConfig<T>>) -> bool {
        match self {
            EventHistory::Add { guid, .. } => !shapes.contains_key(guid),
            EventHistory::Remove { guid, config } => shapes.contains_key(guid) && shapes[guid]
                == config,
            EventHistory::Modify { guid, from, .. } => shapes.contains_key(guid) && shapes[guid]
                == from,
            EventHistory::Checkpoint => false,
        }
    }
}

/// The shapes that the first `n` facts of `history` make, one after the
/// other, out of nothing.
pub open spec fn replayed<T>(history: Seq<EventHistory<T>>, n: nat) -> Map<Guid, ShapeConfig<T>>
    decreases n,
{
    if n == 0 {
        Map::empty()
    } else {
        history[n - 1].applied_to(replayed(history, (n - 1) as nat))
    }
}

impl<T> ModelState<T> {
    /// Whether shapes and history tell the same story: the history can be
    /// made fact by fact out of nothing, and the shapes are what its facts
    /// up to the cursor make.
    pub open spec fn in_step(self) -> bool {
        &&& self.cursor <= self.history.len()
        &&& self.shapes == replayed(self.history, self.cursor)
        &&& forall|i: int|
            0 <= i < self.history.len() ==> (#[trigger] self.history[i]).fits(
                replayed(self.history, i as nat),
            )
    }

    /// Whether `cmd` is merged into a fact that was undone. Only such a
    /// command lets shapes and history fall out of step.
    pub open spec fn merges_into_undone(self, cmd: Event<T>) -> bool {
        self.merges(cmd) && self.cursor < self.history.len()
    }
}

} // verus!
