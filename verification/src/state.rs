//! The event log and state machine: idempotent, gap-free application of a
//! totally ordered event stream, and the two-party trade protocol.

use vstd::prelude::*;

use std::collections::HashMap;

use crate::event::{Event, EventData, EventDataV, EventV};
use crate::farm::{spec_plant_seq, FarmV};
use crate::player::{Player, PlayerV};
use crate::qty::VeggieQty;
use crate::truck::Truck;
use crate::{EventIndex, Time, UserId};

use vstd::std_specs::iter::IteratorSpec;

verus! {

broadcast use vstd::std_specs::hash::group_hash_axioms;

/// The per-player views of a map of players.
pub open spec fn players_model(m: Map<UserId, Player>) -> Map<UserId, PlayerV> {
    Map::new(|k: UserId| m.contains_key(k), |k: UserId| m[k].model())
}

/// Mathematical view of the whole game state.
#[verifier::ext_equal]
pub ghost struct StateV {
    pub players: Map<UserId, PlayerV>,
    pub time: nat,
    pub next_event_idx: nat,
}

impl StateV {
    /// A fresh game: no players, time zero, no event applied yet.
    pub open spec fn spec_initial() -> StateV {
        StateV { players: Map::empty(), time: 0, next_event_idx: 0 }
    }

    /// Extraction half of the trade protocol: drain the addressed truck's
    /// cargo, if player, truck and cargo all exist; otherwise nothing is
    /// extracted and nothing changes.
    pub open spec fn spec_extract(self, id: UserId, truck_index: int) -> (StateV, Option<
        VeggieQty,
    >) {
        if self.players.contains_key(id) && 0 <= truck_index
            < self.players[id].farm.trucks.len() {
            let p = self.players[id];
            let t = p.farm.trucks[truck_index];
            match t.veggies {
                Some(cargo) => {
                    let t2 = Truck { veggies: None, ..t };
                    let p2 = PlayerV {
                        farm: FarmV {
                            trucks: p.farm.trucks.update(truck_index, t2),
                            ..p.farm
                        },
                        ..p
                    };
                    (StateV { players: self.players.insert(id, p2), ..self }, Some(cargo))
                },
                None => (self, None),
            }
        } else {
            (self, None)
        }
    }

    /// Writeback half of the trade protocol: hand a record to the addressed
    /// truck, if player and truck exist; an invalid address changes nothing.
    /// Every writeback the trade makes addresses a truck it extracted from,
    /// so nothing is ever dropped.
    pub open spec fn spec_put_cargo(self, id: UserId, truck_index: int, cargo: VeggieQty) -> StateV {
        if self.players.contains_key(id) && 0 <= truck_index
            < self.players[id].farm.trucks.len() {
            let p = self.players[id];
            let t = p.farm.trucks[truck_index];
            let t2 = Truck { veggies: Some(cargo), ..t };
            let p2 = PlayerV {
                farm: FarmV { trucks: p.farm.trucks.update(truck_index, t2), ..p.farm },
                ..p
            };
            StateV { players: self.players.insert(id, p2), ..self }
        } else {
            self
        }
    }

    /// The trade protocol: extract both cargos; if both exist, the visitor
    /// tries to sell by planting on the visited farm, and succeeds only if
    /// the whole cargo is absorbed, taking the visited truck's cargo home;
    /// otherwise every extracted record goes back to its own truck.
    pub open spec fn spec_trade(
        self,
        visitor: UserId,
        visited: UserId,
        visitor_truck: int,
        visited_truck: int,
    ) -> StateV {
        let (s1, visitor_cargo) = self.spec_extract(visitor, visitor_truck);
        let (s2, visited_cargo) = s1.spec_extract(visited, visited_truck);
        match (visitor_cargo, visited_cargo) {
            (Some(vc), Some(dc)) => {
                let farm = s2.players[visited].farm;
                let (fields2, left) = spec_plant_seq(farm.fields, vc);
                let p2 = PlayerV { farm: FarmV { fields: fields2, ..farm }, ..s2.players[visited] };
                let s3 = StateV { players: s2.players.insert(visited, p2), ..s2 };
                if left.qty == 0 {
                    s3.spec_put_cargo(visitor, visitor_truck, dc)
                } else {
                    s3.spec_put_cargo(visitor, visitor_truck, left).spec_put_cargo(
                        visited,
                        visited_truck,
                        dc,
                    )
                }
            },
            (Some(vc), None) => s2.spec_put_cargo(visitor, visitor_truck, vc),
            (None, Some(dc)) => s2.spec_put_cargo(visited, visited_truck, dc),
            (None, None) => s2,
        }
    }

    /// The ordering contract: a stale index is replay-safe and changes
    /// nothing; a gap fails and changes nothing; the expected index consumes
    /// one slot of the sequence and dispatches on the event. Returns the new
    /// state and whether the application succeeded — an edit of an unknown
    /// player is the one event that consumes its index and still fails.
    pub open spec fn spec_update(self, ed: EventDataV) -> (StateV, bool) {
        if ed.event_idx < self.next_event_idx {
            (self, true)
        } else if ed.event_idx > self.next_event_idx {
            (self, false)
        } else {
            let s = StateV { next_event_idx: self.next_event_idx + 1, ..self };
            match ed.event {
                EventV::Tick => (StateV { time: s.time + 1, ..s }, true),
                EventV::AddPlayer(id, name) => (
                    StateV {
                        players: s.players.insert(id, PlayerV::spec_new(name, s.time, ed.seed)),
                        ..s
                    },
                    true,
                ),
                EventV::EditPlayer(id, name) => {
                    if s.players.contains_key(id) {
                        (
                            StateV {
                                players: s.players.insert(
                                    id,
                                    PlayerV { username: name, ..s.players[id] },
                                ),
                                ..s
                            },
                            true,
                        )
                    } else {
                        (s, false)
                    }
                },
                EventV::RemovePlayer(id) => (StateV { players: s.players.remove(id), ..s }, true),
                EventV::Trade(visitor_truck, visited, visited_truck) => {
                    match ed.user_id {
                        Some(visitor) => (
                            s.spec_trade(
                                visitor,
                                visited,
                                visitor_truck as int,
                                visited_truck as int,
                            ),
                            true,
                        ),
                        None => (s, true),
                    }
                },
            }
        }
    }
}

/// Inserting a player refines to inserting its view.
proof fn lemma_players_model_insert(m: Map<UserId, Player>, id: UserId, p: Player)
    ensures
        players_model(m.insert(id, p)) == players_model(m).insert(id, p.model()),
{
    assert(players_model(m.insert(id, p)) =~= players_model(m).insert(id, p.model()));
}

/// Removing a player refines to removing its view.
proof fn lemma_players_model_remove(m: Map<UserId, Player>, id: UserId)
    ensures
        players_model(m.remove(id)) == players_model(m).remove(id),
{
    assert(players_model(m.remove(id)) =~= players_model(m).remove(id));
}

/// The authoritative game state: every participant holds one copy and applies
/// the identical ordered event stream to it.
#[derive(Clone, Debug)]
pub struct State {
    pub players: HashMap<UserId, Player>,
    pub time: Time,
    pub next_event_idx: EventIndex,
}

impl State {
    pub open spec fn model(&self) -> StateV {
        StateV {
            players: players_model(self.players@),
            time: self.time as nat,
            next_event_idx: self.next_event_idx as nat,
        }
    }

    /// Drain the addressed truck's cargo, leaving the truck in place.
    fn extract_cargo(&mut self, id: UserId, truck_index: usize) -> (r: Option<VeggieQty>)
        ensures
            (final(self).model(), r) == old(self).model().spec_extract(id, truck_index as int),
    {
        let ghost s0 = old(self).model();
        match self.players.remove(&id) {
            Some(mut p) => {
                proof {
                    lemma_players_model_remove(old(self).players@, id);
                }
                let r = if truck_index < p.farm.trucks.len() {
                    let mut t = p.farm.trucks[truck_index];
                    let cargo = t.veggies.take();
                    p.farm.trucks.set(truck_index, t);
                    cargo
                } else {
                    None
                };
                self.players.insert(id, p);
                proof {
                    lemma_players_model_insert(final(self).players@.remove(id), id, p);
                    assert(final(self).players@ =~= old(self).players@.remove(id).insert(id, p));
                    assert(players_model(final(self).players@) =~= players_model(
                        old(self).players@,
                    ).insert(id, p.model()));
                    match r {
                        Some(cargo) => {
                            assert(p.farm.trucks@ =~= old(self).players@[id].farm.trucks@.update(
                                truck_index as int,
                                Truck {
                                    veggies: None,
                                    ..old(self).players@[id].farm.trucks@[truck_index as int]
                                },
                            ));
                            assert(p.model() =~= s0.spec_extract(id, truck_index as int).0
                                .players[id]);
                            assert(final(self).model() =~= s0.spec_extract(
                                id,
                                truck_index as int,
                            ).0);
                        },
                        None => {
                            if truck_index < p.farm.trucks.len() {
                                assert(p.farm.trucks@ =~= old(self).players@[id].farm.trucks@);
                            }
                            assert(p.model() =~= old(self).players@[id].model());
                            assert(players_model(final(self).players@) =~= players_model(
                                old(self).players@,
                            ));
                            assert(final(self).model() =~= s0);
                        },
                    }
                }
                r
            },
            None => {
                proof {
                    assert(!s0.players.contains_key(id));
                }
                None
            },
        }
    }

    /// Hand a record to the addressed truck, replacing any cargo slot value.
    fn put_cargo(&mut self, id: UserId, truck_index: usize, cargo: VeggieQty)
        ensures
            final(self).model() == old(self).model().spec_put_cargo(
                id,
                truck_index as int,
                cargo,
            ),
    {
        let ghost s0 = old(self).model();
        match self.players.remove(&id) {
            Some(mut p) => {
                proof {
                    lemma_players_model_remove(old(self).players@, id);
                }
                if truck_index < p.farm.trucks.len() {
                    let mut t = p.farm.trucks[truck_index];
                    t.veggies = Some(cargo);
                    p.farm.trucks.set(truck_index, t);
                }
                self.players.insert(id, p);
                proof {
                    lemma_players_model_insert(final(self).players@.remove(id), id, p);
                    assert(final(self).players@ =~= old(self).players@.remove(id).insert(id, p));
                    assert(players_model(final(self).players@) =~= players_model(
                        old(self).players@,
                    ).insert(id, p.model()));
                    if truck_index < p.farm.trucks.len() {
                        assert(p.farm.trucks@ =~= old(self).players@[id].farm.trucks@.update(
                            truck_index as int,
                            Truck {
                                veggies: Some(cargo),
                                ..old(self).players@[id].farm.trucks@[truck_index as int]
                            },
                        ));
                        assert(p.model() =~= s0.spec_put_cargo(id, truck_index as int, cargo)
                            .players[id]);
                    } else {
                        assert(p.model() =~= old(self).players@[id].model());
                    }
                    assert(final(self).model() =~= s0.spec_put_cargo(
                        id,
                        truck_index as int,
                        cargo,
                    ));
                }
            },
            None => {
                proof {
                    assert(!s0.players.contains_key(id));
                }
            },
        }
    }

    /// The two-party exchange: all-or-nothing
    /// acceptance mediated by the visited farm's planting capacity; invalid
    /// indices degrade to a no-op for the side they address.
    pub fn trade(
        &mut self,
        visitor: UserId,
        visited: UserId,
        visitor_truck: usize,
        visited_truck: usize,
    )
        ensures
            final(self).model() == old(self).model().spec_trade(
                visitor,
                visited,
                visitor_truck as int,
                visited_truck as int,
            ),
    {
        let visitor_cargo = self.extract_cargo(visitor, visitor_truck);
        let ghost s1 = self.model();
        let visited_cargo = self.extract_cargo(visited, visited_truck);
        let ghost s2 = self.model();
        match (visitor_cargo, visited_cargo) {
            (Some(mut vc), Some(dc)) => {
                let ghost m2 = self.players@;
                match self.players.remove(&visited) {
                    Some(mut p) => {
                        proof {
                            lemma_players_model_remove(m2, visited);
                        }
                        p.farm.plant_veggies(&mut vc);
                        self.players.insert(visited, p);
                        proof {
                            lemma_players_model_insert(m2.remove(visited), visited, p);
                            assert(self.players@ =~= m2.remove(visited).insert(visited, p));
                            assert(players_model(self.players@) =~= s2.players.insert(
                                visited,
                                p.model(),
                            ));
                        }
                    },
                    None => {
                        proof {
                            assert((s2, visited_cargo) == s1.spec_extract(
                                visited,
                                visited_truck as int,
                            ));
                            assert(s2.players.contains_key(visited));
                            assert(!m2.contains_key(visited));
                            assert(false);
                        }
                    },
                }
                if vc.is_empty() {
                    self.put_cargo(visitor, visitor_truck, dc);
                } else {
                    self.put_cargo(visitor, visitor_truck, vc);
                    self.put_cargo(visited, visited_truck, dc);
                }
                proof {
                    assert(final(self).model() =~= old(self).model().spec_trade(
                        visitor,
                        visited,
                        visitor_truck as int,
                        visited_truck as int,
                    ));
                }
            },
            (Some(vc), None) => {
                self.put_cargo(visitor, visitor_truck, vc);
            },
            (None, Some(dc)) => {
                self.put_cargo(visited, visited_truck, dc);
            },
            (None, None) => {},
        }
    }

    /// Apply one ordered event. A stale index is ignored and reported as
    /// success; a gap is reported as failure and the caller must
    /// resynchronize; the expected index advances the sequence counter and
    /// dispatches the event. Only an edit of an unknown player both consumes
    /// its index and reports failure.
    pub fn update(&mut self, event_data: EventData) -> (r: Option<()>)
        requires
            old(self).next_event_idx < u64::MAX,
            old(self).time < u64::MAX,
        ensures
            final(self).model() == old(self).model().spec_update(event_data.model()).0,
            (r is Some) == old(self).model().spec_update(event_data.model()).1,
    {
        let EventData { event, seed, user_id, event_idx } = event_data;
        if event_idx < self.next_event_idx {
            return Some(());
        } else if event_idx > self.next_event_idx {
            return None;
        }
        self.next_event_idx = self.next_event_idx + 1;
        match event {
            Event::Tick => {
                self.time = self.time + 1;
                Some(())
            },
            Event::AddPlayer(id, name) => {
                let ghost m0 = self.players@;
                let player = Player::new(name, self.time, seed);
                self.players.insert(id, player);
                proof {
                    lemma_players_model_insert(m0, id, player);
                    assert(self.players@ =~= m0.insert(id, player));
                    assert(self.model() =~= old(self).model().spec_update(
                        event_data.model(),
                    ).0);
                }
                Some(())
            },
            Event::EditPlayer(id, name) => {
                let ghost m0 = self.players@;
                match self.players.remove(&id) {
                    Some(mut p) => {
                        p.username = name;
                        self.players.insert(id, p);
                        proof {
                            lemma_players_model_remove(m0, id);
                            lemma_players_model_insert(m0.remove(id), id, p);
                            assert(self.players@ =~= m0.remove(id).insert(id, p));
                            assert(players_model(self.players@) =~= players_model(m0).insert(
                                id,
                                p.model(),
                            ));
                            assert(self.model() =~= old(self).model().spec_update(
                                event_data.model(),
                            ).0);
                        }
                        Some(())
                    },
                    None => {
                        proof {
                            assert(!players_model(m0).contains_key(id));
                            assert(self.model() =~= old(self).model().spec_update(
                                event_data.model(),
                            ).0);
                        }
                        None
                    },
                }
            },
            Event::RemovePlayer(id) => {
                let ghost m0 = self.players@;
                self.players.remove(&id);
                proof {
                    lemma_players_model_remove(m0, id);
                    assert(self.players@ =~= m0.remove(id));
                    assert(self.model() =~= old(self).model().spec_update(event_data.model()).0);
                }
                Some(())
            },
            Event::Trade(visitor_truck, visited, visited_truck) => {
                if let Some(visitor) = user_id {
                    self.trade(visitor, visited, visitor_truck, visited_truck);
                }
                Some(())
            },
        }
    }

    /// The snapshot sent to a (re)joining participant: today the whole state,
    /// unfiltered; the receiver argument is the designed seam for hiding
    /// private information later.
    pub fn view(&self, _receiver: UserId) -> (r: State)
        ensures
            r.model() == self.model(),
    {
        let mut players: HashMap<UserId, Player> = HashMap::new();
        let ghost m = self.players@;
        proof {
            vstd::std_specs::hash::axiom_spec_hash_map_iter(&self.players);
        }
        for pair in it: self.players.iter()
            invariant
                forall|j: int|
                    0 <= j < it.seq().len() ==> m.contains_key(*(#[trigger] it.seq()[j]).0)
                        && m[*it.seq()[j].0] == *it.seq()[j].1,
                forall|j: int|
                    0 <= j < it.index() ==> players@.contains_key(*(#[trigger] it.seq()[j]).0)
                        && players@[*it.seq()[j].0].model() == it.seq()[j].1.model(),
                forall|k: UserId| #[trigger]
                    players@.contains_key(k) ==> exists|j: int|
                        0 <= j < it.index() && *(#[trigger] it.seq()[j]).0 == k,
                it.seq() == vstd::std_specs::hash::spec_hash_map_iter(&self.players).remaining(),
                m == self.players@,
        {
            let (k, v) = pair;
            players.insert(*k, v.duplicate());
        }
        let r = State { players, time: self.time, next_event_idx: self.next_event_idx };
        proof {
            let ghost v = vstd::std_specs::hash::spec_hash_map_iter(&self.players).remaining();
            assert forall|k: UserId| #[trigger] m.contains_key(k) implies r.players@.contains_key(
                k,
            ) && r.players@[k].model() == m[k].model() by {
                assert(v.contains((&k, &m[k])));
                let j = choose|j: int| 0 <= j < v.len() && v[j] == (&k, &m[k]);
                assert(r.players@.contains_key(*v[j].0));
                assert(r.players@[k].model() == v[j].1.model());
            }
            assert forall|k: UserId| #[trigger]
                r.players@.contains_key(k) implies m.contains_key(k) by {
                let j = choose|j: int| 0 <= j < v.len() && *v[j].0 == k;
                assert(m.contains_key(*v[j].0));
            }
            assert(players_model(r.players@) =~= players_model(self.players@));
            assert(r.model() =~= self.model());
        }
        r
    }
}

impl Default for State {
    /// A fresh game: no players, time zero, no event applied yet.
    fn default() -> (r: State)
        ensures
            r.model() == StateV::spec_initial(),
    {
        let r = State { players: HashMap::new(), time: 0, next_event_idx: 0 };
        proof {
            assert(r.model() =~= StateV::spec_initial());
        }
        r
    }
}

/// A client-to-authority request.
#[derive(Clone, Debug)]
pub enum Req {
    Event(Event),
}

/// An authority-to-client message: a full snapshot on (re)join, or one
/// ordered event to apply incrementally.
#[derive(Clone, Debug)]
pub enum Res {
    Sync(SyncData),
    Event(EventData),
}

/// The full-state snapshot handed to a (re)joining participant.
#[derive(Clone, Debug)]
pub struct SyncData {
    pub user_id: UserId,
    pub state: State,
}

} // verus!
