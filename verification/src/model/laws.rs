//! What holds of the model whatever is asked of it, stated over
//! [`ModelState`] and proved.

use vstd::prelude::*;
use super::events::{Event, EventHistory};
use super::shape::{PartialShapeConfig, ShapeConfig};
use super::state::{replayed, ModelState};
use crate::types::Guid;

verus! {

impl<T> EventHistory<T> {
    /// Whether `shapes` are as this fact leaves them, as far as undoing it
    /// and making it again can tell.
    pub open spec fn shows_in(self, shapes: Map<Guid, ShapeConfig<T>>) -> bool {
        match self {
            EventHistory::Add { guid, config } => shapes.contains_key(guid) && shapes[guid]
                == config,
            EventHistory::Remove { guid, .. } => !shapes.contains_key(guid),
            EventHistory::Modify { guid, to, .. } => shapes.contains_key(guid) ==> shapes[guid]
                == to,
            EventHistory::Checkpoint => true,
        }
    }
}

/// Two histories that agree on their first `n` facts, but for whether a
/// modification is closed, make the same shapes out of them.
pub proof fn lemma_replayed_prefix<T>(a: Seq<EventHistory<T>>, b: Seq<EventHistory<T>>, n: nat)
    requires
        n <= a.len(),
        n <= b.len(),
        forall|i: int| 0 <= i < n ==> (#[trigger] a[i]).sealed() == b[i].sealed(),
    ensures
        replayed(a, n) == replayed(b, n),
    decreases n,
{
    if n > 0 {
        lemma_replayed_prefix(a, b, (n - 1) as nat);
    }
}

/// The model starts out in step and well formed.
pub proof fn law_starts_in_step<T>()
    ensures
        ModelState::<T>::initial().in_step(),
        ModelState::<T>::initial().wf(),
{
}

/// No command breaks the invariant of the model.
pub proof fn lemma_process_wf<T>(s: ModelState<T>, cmd: Event<T>)
    requires
        s.wf(),
        ModelState::admits(cmd),
        cmd is Add ==> s.next_guid < i32::MAX,
    ensures
        s.process(cmd).wf(),
{
    let t = s.process(cmd);
    assert forall|i: int| 0 <= i < t.history.len() implies match (#[trigger] t.history[i]).target() {
        Some(g) => g < t.next_guid,
        None => true,
    } by {
        if i < s.history.len() {
            assert(s.history[i].target() == s.history[i].sealed().target());
        }
    }
}

/// Neither undo nor redo breaks the invariant of the model.
pub proof fn lemma_replay_wf<T>(s: ModelState<T>)
    requires
        s.wf(),
    ensures
        s.undo().wf(),
        s.redo().wf(),
{
}

/// A command keeps shapes and history in step, unless it is merged into a
/// fact that was undone.
pub proof fn lemma_process_in_step<T>(s: ModelState<T>, cmd: Event<T>)
    requires
        s.wf(),
        s.in_step(),
        ModelState::admits(cmd),
        !s.merges_into_undone(cmd),
    ensures
        s.process(cmd).in_step(),
{
    let t = s.process(cmd);
    // What is new in the history of `t` stands at its end: the history of
    // `s` makes the same shapes as far as the two agree.
    let same = if s.records(cmd) {
        s.cursor
    } else if s.merges(cmd) {
        (s.history.len() - 1) as nat
    } else {
        s.history.len()
    };
    assert forall|i: nat| i <= same implies #[trigger] replayed(t.history, i) == replayed(
        s.history,
        i,
    ) by {
        lemma_replayed_prefix(t.history, s.history, i);
    }
    if s.merges(cmd) {
        assert(replayed(t.history, same + 1) == t.history[same as int].applied_to(
            replayed(t.history, same),
        ));
        assert(t.shapes =~= replayed(t.history, same + 1));
    }
    assert forall|i: int| 0 <= i < t.history.len() implies (#[trigger] t.history[i]).fits(
        replayed(t.history, i as nat),
    ) by {
        if i < same {
            assert(s.history[i].fits(replayed(s.history, i as nat)));
        }
    }
}

/// Undo keeps shapes and history in step.
pub proof fn lemma_undo_in_step<T>(s: ModelState<T>)
    requires
        s.in_step(),
    ensures
        s.undo().in_step(),
{
    if 0 < s.cursor {
        assert(s.history[s.cursor - 1].fits(replayed(s.history, (s.cursor - 1) as nat)));
        assert(s.undo().shapes =~= replayed(s.history, (s.cursor - 1) as nat));
    }
}

/// Redo keeps shapes and history in step.
pub proof fn lemma_redo_in_step<T>(s: ModelState<T>)
    requires
        s.in_step(),
    ensures
        s.redo().in_step(),
{
    if s.cursor < s.history.len() {
        assert(s.history[s.cursor as int].fits(s.shapes));
    }
}

/// Where shapes and history are in step, the shapes are as the last fact in
/// effect leaves them.
pub proof fn lemma_in_step_shows<T>(s: ModelState<T>)
    requires
        s.in_step(),
        0 < s.cursor,
    ensures
        s.history[s.cursor - 1].shows_in(s.shapes),
{
    assert(s.history[s.cursor - 1].fits(replayed(s.history, (s.cursor - 1) as nat)));
}

/// Undo takes a command back: after a command that put a new fact on
/// record, undo leaves the shapes as they were before the command.
pub proof fn law_undo_takes_back<T>(s: ModelState<T>, cmd: Event<T>)
    requires
        s.wf(),
        ModelState::admits(cmd),
        s.records(cmd),
    ensures
        s.process(cmd).undo().shapes == s.shapes,
{
    let t = s.process(cmd);
    assert(t.history[t.cursor - 1] == s.outcome(cmd)->0);
}

/// Redo makes again what undo took back: with a fact in effect, undo
/// followed by redo leaves the whole state as it was exactly if the shapes
/// were as that fact leaves them.
pub proof fn law_redo_restores<T>(s: ModelState<T>)
    requires
        0 < s.cursor <= s.history.len(),
    ensures
        s.undo().redo() == s <==> s.history[s.cursor - 1].shows_in(s.shapes),
{
    if s.history[s.cursor - 1].shows_in(s.shapes) {
        assert(s.undo().redo().shapes =~= s.shapes);
    }
}

/// Undo followed by redo leaves a state that is in step as it was, wherever
/// the cursor stands behind the first fact.
pub proof fn law_redo_restores_in_step<T>(s: ModelState<T>)
    requires
        s.in_step(),
        0 < s.cursor,
    ensures
        s.undo().redo() == s,
{
    lemma_in_step_shows(s);
    law_redo_restores(s);
}

/// A new fact ends what could be made again: after a command that put a
/// new fact on record, the history is the facts that were in effect and the
/// new one, the cursor stands at its end, and redo changes nothing.
pub proof fn law_new_fact_discards_redo<T>(s: ModelState<T>, cmd: Event<T>)
    requires
        s.cursor <= s.history.len(),
        s.records(cmd),
    ensures
        s.process(cmd).history == s.history.take(s.cursor as int).push(s.outcome(cmd)->0),
        s.process(cmd).cursor == s.process(cmd).history.len(),
        s.process(cmd).redo() == s.process(cmd),
{
}

/// Two modifications of one shape, one after the other, make one fact: it
/// runs from the shape before the first to the shape after the second.
pub proof fn law_modifications_merge<T>(
    s: ModelState<T>,
    guid: Guid,
    first: PartialShapeConfig<T>,
    second: PartialShapeConfig<T>,
)
    requires
        s.cursor <= s.history.len(),
        s.shapes.contains_key(guid),
        !s.merges(Event::Modify { guid, config: first }),
    ensures
        s.process(Event::Modify { guid, config: first }).process(
            Event::Modify { guid, config: second },
        ).history == s.history.take(s.cursor as int).push(
            EventHistory::Modify {
                guid,
                from: s.shapes[guid],
                to: s.shapes[guid].patched(first).patched(second),
                committed: false,
            },
        ),
{
    let once = s.process(Event::Modify { guid, config: first });
    assert(once.merges(Event::Modify { guid, config: second }));
}

/// A checkpoint between two modifications of one shape keeps them apart:
/// they make two facts, the first closed, the second running from where the
/// first ends.
pub proof fn law_checkpoint_separates<T>(
    s: ModelState<T>,
    guid: Guid,
    first: PartialShapeConfig<T>,
    second: PartialShapeConfig<T>,
)
    requires
        s.cursor <= s.history.len(),
        s.shapes.contains_key(guid),
        !s.merges(Event::Modify { guid, config: first }),
    ensures
        s.process(Event::Modify { guid, config: first }).process(Event::Checkpoint).process(
            Event::Modify { guid, config: second },
        ).history == s.history.take(s.cursor as int).push(
            EventHistory::Modify {
                guid,
                from: s.shapes[guid],
                to: s.shapes[guid].patched(first),
                committed: true,
            },
        ).push(
            EventHistory::Modify {
                guid,
                from: s.shapes[guid].patched(first),
                to: s.shapes[guid].patched(first).patched(second),
                committed: false,
            },
        ),
{
    let closed = s.process(Event::Modify { guid, config: first }).process(Event::Checkpoint);
    assert(!closed.merges(Event::Modify { guid, config: second }));
    assert(closed.history.take(closed.cursor as int) =~= closed.history);
}

/// A removal or a modification of a shape that is not there does nothing:
/// the state stays as it is, no identity is returned and no view is told.
pub proof fn law_orphan_changes_nothing<T>(s: ModelState<T>, cmd: Event<T>)
    requires
        match cmd {
            Event::Remove { guid } => !s.shapes.contains_key(guid),
            Event::Modify { guid, .. } => !s.shapes.contains_key(guid),
            _ => false,
        },
    ensures
        s.process(cmd) == s,
        s.answer(cmd) is None,
        s.announces(cmd) is None,
{
}

/// One thing that is asked of the model.
pub enum Step<T> {
    Command(Event<T>),
    Undo,
    Redo,
}

impl<T> Step<T> {
    /// Whether this step is one that a caller may take.
    pub open spec fn admitted(self) -> bool {
        match self {
            Step::Command(cmd) => ModelState::admits(cmd),
            _ => true,
        }
    }

    /// Whether this step asks for a new shape.
    pub open spec fn adds(self) -> bool {
        self matches Step::Command(Event::Add { .. })
    }
}

impl<T> ModelState<T> {
    /// The state after one step.
    pub open spec fn step(self, step: Step<T>) -> Self {
        match step {
            Step::Command(cmd) => self.process(cmd),
            Step::Undo => self.undo(),
            Step::Redo => self.redo(),
        }
    }

    /// The state after `steps`, taken one after the other.
    pub open spec fn run(self, steps: Seq<Step<T>>) -> Self
        decreases steps.len(),
    {
        if steps.len() == 0 {
            self
        } else {
            self.run(steps.drop_last()).step(steps.last())
        }
    }

    /// What the step at place `i` of `steps` returns, if it is a command.
    pub open spec fn answer_at(self, steps: Seq<Step<T>>, i: int) -> Option<Guid>
        recommends
            0 <= i < steps.len(),
    {
        match steps[i] {
            Step::Command(cmd) => self.run(steps.take(i)).answer(cmd),
            _ => None,
        }
    }
}

/// Over the first `b` of `steps` the next identity never falls, rises by at
/// most one a step, and the invariant of the model stays.
pub proof fn lemma_counter_grows<T>(s: ModelState<T>, steps: Seq<Step<T>>, a: int, b: int)
    requires
        s.wf(),
        forall|k: int| 0 <= k < steps.len() ==> (#[trigger] steps[k]).admitted(),
        s.next_guid + steps.len() <= i32::MAX,
        0 <= a <= b <= steps.len(),
    ensures
        s.run(steps.take(b)).wf(),
        s.run(steps.take(a)).next_guid <= s.run(steps.take(b)).next_guid <= s.next_guid + b,
    decreases b,
{
    if b > 0 {
        assert(steps.take(b).drop_last() =~= steps.take(b - 1));
        if a < b {
            lemma_counter_grows(s, steps, a, b - 1);
        } else {
            lemma_counter_grows(s, steps, b - 1, b - 1);
        }
        let before = s.run(steps.take(b - 1));
        match steps[b - 1] {
            Step::Command(cmd) => lemma_process_wf(before, cmd),
            _ => lemma_replay_wf(before),
        }
    }
}

impl<T> ModelState<T> {
    /// Whether none of `steps`, taken one after the other from this state,
    /// is a command that is merged into an undone fact.
    pub open spec fn keeps_step(self, steps: Seq<Step<T>>) -> bool {
        forall|k: int|
            0 <= k < steps.len() ==> match #[trigger] steps[k] {
                Step::Command(cmd) => !self.run(steps.take(k)).merges_into_undone(cmd),
                _ => true,
            }
    }
}

/// Shapes and history stay in step over any number of steps, as long as no
/// command is merged into an undone fact.
pub proof fn law_stays_in_step<T>(s: ModelState<T>, steps: Seq<Step<T>>)
    requires
        s.wf(),
        s.in_step(),
        forall|k: int| 0 <= k < steps.len() ==> (#[trigger] steps[k]).admitted(),
        s.next_guid + steps.len() <= i32::MAX,
        s.keeps_step(steps),
    ensures
        s.run(steps).in_step(),
    decreases steps.len(),
{
    if steps.len() > 0 {
        let n = steps.len() - 1;
        let head = steps.drop_last();
        assert forall|k: int| 0 <= k < head.len() implies match #[trigger] head[k] {
            Step::Command(cmd) => !s.run(head.take(k)).merges_into_undone(cmd),
            _ => true,
        } by {
            assert(head.take(k) =~= steps.take(k));
        }
        law_stays_in_step(s, head);
        lemma_counter_grows(s, steps, n, n);
        let before = s.run(head);
        match steps[n] {
            Step::Command(cmd) => lemma_process_in_step(before, cmd),
            Step::Undo => lemma_undo_in_step(before),
            Step::Redo => lemma_redo_in_step(before),
        }
    }
}

/// No identity is given twice: of the steps that a caller takes, any two
/// that add a shape return two different identities, whatever was removed,
/// undone or made again in between.
pub proof fn law_identities_differ<T>(s: ModelState<T>, steps: Seq<Step<T>>, i: int, j: int)
    requires
        s.wf(),
        forall|k: int| 0 <= k < steps.len() ==> (#[trigger] steps[k]).admitted(),
        s.next_guid + steps.len() <= i32::MAX,
        0 <= i < j < steps.len(),
        steps[i].adds(),
        steps[j].adds(),
    ensures
        s.answer_at(steps, i) is Some,
        s.answer_at(steps, j) is Some,
        s.answer_at(steps, i) != s.answer_at(steps, j),
{
    lemma_counter_grows(s, steps, i, i);
    lemma_counter_grows(s, steps, i + 1, j);
    assert(steps.take(i + 1).drop_last() =~= steps.take(i));
}

} // verus!
