//! Events: the intents that mutate the shared game state, and the envelope
//! that gives each intent its order index, seed and originator.

use vstd::prelude::*;

use crate::{EventIndex, Seed, UserId};

verus! {

/// A player- or system-originated intent. Pure intent: no derived data.
#[derive(Clone, Debug)]
pub enum Event {
    Tick,
    AddPlayer(UserId, String),
    EditPlayer(UserId, String),
    RemovePlayer(UserId),
    /// Visitor's truck index, visited user, visited user's truck index.
    Trade(usize, UserId, usize),
}

/// Mathematical view of an event.
pub ghost enum EventV {
    Tick,
    AddPlayer(UserId, Seq<char>),
    EditPlayer(UserId, Seq<char>),
    RemovePlayer(UserId),
    Trade(usize, UserId, usize),
}

impl Event {
    pub open spec fn model(&self) -> EventV {
        match self {
            Event::Tick => EventV::Tick,
            Event::AddPlayer(id, name) => EventV::AddPlayer(*id, name@),
            Event::EditPlayer(id, name) => EventV::EditPlayer(*id, name@),
            Event::RemovePlayer(id) => EventV::RemovePlayer(*id),
            Event::Trade(vt, visited, dt) => EventV::Trade(*vt, *visited, *dt),
        }
    }
}

/// An event wrapped with its assigned order index, seed and originator.
/// `event_idx` is the sole ordering and deduplication key.
#[derive(Clone, Debug)]
pub struct EventData {
    pub event: Event,
    pub user_id: Option<UserId>,
    pub seed: Seed,
    pub event_idx: EventIndex,
}

/// Mathematical view of an event envelope.
#[verifier::ext_equal]
pub ghost struct EventDataV {
    pub event: EventV,
    pub user_id: Option<UserId>,
    pub seed: Seed,
    pub event_idx: EventIndex,
}

impl EventData {
    pub open spec fn model(&self) -> EventDataV {
        EventDataV {
            event: self.event.model(),
            user_id: self.user_id,
            seed: self.seed,
            event_idx: self.event_idx,
        }
    }

    /// Per-receiver visibility: the designed extension point for hiding
    /// private information; today every event is visible to every receiver.
    pub fn filter(&self, _receiver: UserId) -> (r: bool)
        ensures
            r == true,
    {
        true
    }
}

} // verus!
