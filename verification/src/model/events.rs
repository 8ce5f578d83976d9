use vstd::prelude::*;
use vstd::std_specs::convert::FromSpecImpl;
use super::shape::{PartialShapeConfig, ShapeConfig};
use crate::types::Guid;

verus! {

/// A command: a change that is asked of the model.
#[derive(Debug)]
#[allow(inconsistent_fields)]
pub enum Event<T> {
    Add {
        /// Set only when the model replays its own history. A caller leaves
        /// it empty, and the model allocates the identity.
        guid: Option<Guid>,
        config: ShapeConfig<T>,
    },
    Remove { guid: Guid },
    Modify { guid: Guid, config: PartialShapeConfig<T> },
    Checkpoint,
}

impl<T: Copy> Clone for Event<T> {
    fn clone(&self) -> (r: Self)
        ensures
            r == *self,
    {
        match self {
            Event::Add { guid, config } => Event::Add { guid: *guid, config: config.clone() },
            Event::Remove { guid } => Event::Remove { guid: *guid },
            Event::Modify { guid, config } => Event::Modify { guid: *guid, config: config.clone() },
            Event::Checkpoint => Event::Checkpoint,
        }
    }
}

/// A fact: a change that the model has made, with all that is needed to undo
/// it and to make it again.
#[derive(Debug)]
pub enum EventHistory<T> {
    Add { guid: Guid, config: ShapeConfig<T> },
    Remove { guid: Guid, config: ShapeConfig<T> },
    Modify {
        guid: Guid,
        from: ShapeConfig<T>,
        to: ShapeConfig<T>,
        /// Once set, no later change is merged into this fact.
        committed: bool,
    },
    Checkpoint,
}

impl<T: Copy> Clone for EventHistory<T> {
    fn clone(&self) -> (r: Self)
        ensures
            r == *self,
    {
        match self {
            EventHistory::Add { guid, config } => EventHistory::Add {
                guid: *guid,
                config: config.clone(),
            },
            EventHistory::Remove { guid, config } => EventHistory::Remove {
                guid: *guid,
                config: config.clone(),
            },
            EventHistory::Modify { guid, from, to, committed } => EventHistory::Modify {
                guid: *guid,
                from: from.clone(),
                to: to.clone(),
                committed: *committed,
            },
            EventHistory::Checkpoint => EventHistory::Checkpoint,
        }
    }
}

impl<T> EventHistory<T> {
    /// The shape that this fact is about. A checkpoint is about none.
    pub open spec fn target(self) -> Option<Guid> {
        match self {
            EventHistory::Add { guid, .. } => Some(guid),
            EventHistory::Remove { guid, .. } => Some(guid),
            EventHistory::Modify { guid, .. } => Some(guid),
            EventHistory::Checkpoint => None,
        }
    }

    /// The fact that takes this one back: an addition becomes the removal of
    /// the same shape and the reverse, a modification runs from its `to` to
    /// its `from`, a checkpoint stays a checkpoint.
    pub open spec fn inverse(self) -> Self {
        match self {
            EventHistory::Add { guid, config } => EventHistory::Remove { guid, config },
            EventHistory::Remove { guid, config } => EventHistory::Add { guid, config },
            EventHistory::Modify { guid, from, to, committed } => EventHistory::Modify {
                guid,
                from: to,
                to: from,
                committed,
            },
            EventHistory::Checkpoint => EventHistory::Checkpoint,
        }
    }

    /// The command that makes this fact again. An addition names its
    /// identity; a modification sets every field to that of `to`.
    pub open spec fn command(self) -> Event<T> {
        match self {
            EventHistory::Add { guid, config } => Event::Add { guid: Some(guid), config },
            EventHistory::Remove { guid, .. } => Event::Remove { guid },
            EventHistory::Modify { guid, to, .. } => Event::Modify {
                guid,
                config: PartialShapeConfig::whole(to),
            },
            EventHistory::Checkpoint => Event::Checkpoint,
        }
    }

    /// The shape that this fact is about, if it is about one.
    pub fn guid(&self) -> (r: Option<Guid>)
        ensures
            r == self.target(),
    {
        match self {
            EventHistory::Add { guid, .. } => Some(*guid),
            EventHistory::Remove { guid, .. } => Some(*guid),
            EventHistory::Modify { guid, .. } => Some(*guid),
            EventHistory::Checkpoint => None,
        }
    }

    /// Merging two facts into one is not offered: the result is always
    /// `None`.
    pub fn fold(&self, other: &EventHistory<T>) -> (r: Option<EventHistory<T>>)
        ensures
            r is None,
    {
        None
    }
}

impl<T: Copy> EventHistory<T> {
    /// The fact that takes this one back.
    pub fn revert(&self) -> (r: EventHistory<T>)
        ensures
            r == self.inverse(),
    {
        match self {
            EventHistory::Add { guid, config } => EventHistory::Remove {
                guid: *guid,
                config: config.clone(),
            },
            EventHistory::Remove { guid, config } => EventHistory::Add {
                guid: *guid,
                config: config.clone(),
            },
            EventHistory::Modify { guid, from, to, committed } => EventHistory::Modify {
                guid: *guid,
                from: to.clone(),
                to: from.clone(),
                committed: *committed,
            },
            EventHistory::Checkpoint => EventHistory::Checkpoint,
        }
    }
}

impl<T> From<EventHistory<T>> for Event<T> {
    fn from(event: EventHistory<T>) -> (r: Self) {
        match event {
            EventHistory::Add { guid, config } => Event::Add { guid: Some(guid), config },
            EventHistory::Remove { guid, .. } => Event::Remove { guid },
            EventHistory::Modify { guid, to, .. } => Event::Modify {
                guid,
                config: PartialShapeConfig {
                    start: Some(to.start),
                    end: Some(to.end),
                    details: Some(to.details),
                    options: Some(to.options),
                },
            },
            EventHistory::Checkpoint => Event::Checkpoint,
        }
    }
}

impl<T> FromSpecImpl<EventHistory<T>> for Event<T> {
    open spec fn obeys_from_spec() -> bool {
        true
    }

    open spec fn from_spec(event: EventHistory<T>) -> Self {
        event.command()
    }
}

/// The inverse of the inverse is the fact itself.
pub proof fn law_revert_twice<T>(fact: EventHistory<T>)
    ensures
        fact.inverse().inverse() == fact,
{
}

} // verus!
