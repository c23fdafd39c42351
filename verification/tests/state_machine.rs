//! The event log, the ordering contract and the trade protocol, end to end.

use std::collections::HashMap;

use farm_core::event::{Event, EventData};
use farm_core::farm::Farm;
use farm_core::field::Field;
use farm_core::player::Player;
use farm_core::qty::VeggieQty;
use farm_core::state::State;
use farm_core::truck::Truck;
use farm_core::veggie::Veggie;

fn envelope(event: Event, event_idx: u64) -> EventData {
    EventData { event, user_id: None, seed: event_idx, event_idx }
}

fn player_with_trucks_and_fields(trucks: Vec<Truck>, fields: Vec<Field>) -> Player {
    Player {
        username: String::from("someone"),
        last_online: 0,
        farm: Farm { fields, trucks, silos: Vec::new(), tractors: Vec::new(), money: 0 },
    }
}

fn two_party_state(visitor_cargo: Option<VeggieQty>, visited_field: Option<VeggieQty>) -> State {
    let mut players = HashMap::new();
    players.insert(
        1,
        player_with_trucks_and_fields(vec![Truck { veggies: visitor_cargo, wait: 0 }], Vec::new()),
    );
    players.insert(
        2,
        player_with_trucks_and_fields(
            vec![Truck { veggies: Some(VeggieQty::new(Veggie::Potato, 1).with_max(1)), wait: 0 }],
            vec![Field { veggies: visited_field, max_veggies: 5 }],
        ),
    );
    State { players, time: 0, next_event_idx: 0 }
}

#[test]
fn example_sequence_leaves_edited_names_and_counter() {
    let mut state = State::default();
    assert_eq!(
        state.update(envelope(Event::AddPlayer(1, String::from("A")), 0)),
        Some(())
    );
    assert_eq!(
        state.update(envelope(Event::AddPlayer(2, String::from("B")), 1)),
        Some(())
    );
    assert_eq!(
        state.update(envelope(Event::EditPlayer(1, String::from("AA")), 2)),
        Some(())
    );
    assert_eq!(state.players.get(&1).unwrap().username, "AA");
    assert_eq!(state.players.get(&2).unwrap().username, "B");
    assert_eq!(state.next_event_idx, 3);
}

#[test]
fn stale_events_replay_safely() {
    let mut state = State::default();
    let add = envelope(Event::AddPlayer(1, String::from("A")), 0);
    assert_eq!(state.update(add.clone()), Some(()));
    let edit = envelope(Event::EditPlayer(1, String::from("B")), 1);
    assert_eq!(state.update(edit), Some(()));

    // replaying the already-consumed first event reports success and
    // changes nothing: the later edit survives
    assert_eq!(state.update(add), Some(()));
    assert_eq!(state.players.get(&1).unwrap().username, "B");
    assert_eq!(state.next_event_idx, 2);
}

#[test]
fn gaps_fail_without_mutation_and_order_recovers() {
    let e0 = envelope(Event::AddPlayer(1, String::from("A")), 0);
    let e1 = envelope(Event::Tick, 1);
    let e2 = envelope(Event::EditPlayer(1, String::from("AA")), 2);

    let mut out_of_order = State::default();
    assert_eq!(out_of_order.update(e0.clone()), Some(()));
    // e2 arrives early: a gap, refused outright
    assert_eq!(out_of_order.update(e2.clone()), None);
    assert_eq!(out_of_order.next_event_idx, 1);
    assert_eq!(out_of_order.time, 0);
    assert_eq!(out_of_order.players.get(&1).unwrap().username, "A");
    // the gap resolves: e1, then e2, then the stale e0 again
    assert_eq!(out_of_order.update(e1.clone()), Some(()));
    assert_eq!(out_of_order.update(e2.clone()), Some(()));
    assert_eq!(out_of_order.update(e0.clone()), Some(()));

    let mut in_order = State::default();
    assert_eq!(in_order.update(e0), Some(()));
    assert_eq!(in_order.update(e1), Some(()));
    assert_eq!(in_order.update(e2), Some(()));

    assert_eq!(out_of_order.next_event_idx, in_order.next_event_idx);
    assert_eq!(out_of_order.time, in_order.time);
    assert_eq!(
        out_of_order.players.get(&1).unwrap().username,
        in_order.players.get(&1).unwrap().username
    );
}

#[test]
fn copies_converge_on_the_same_event_stream() {
    let events = vec![
        envelope(Event::AddPlayer(1, String::from("A")), 0),
        envelope(Event::Tick, 1),
        envelope(Event::AddPlayer(2, String::from("B")), 2),
        envelope(Event::Tick, 3),
        envelope(Event::RemovePlayer(2), 4),
        envelope(Event::EditPlayer(1, String::from("AAA")), 5),
    ];
    let mut a = State::default();
    let mut b = State::default();
    for e in &events {
        assert_eq!(a.update(e.clone()), b.update(e.clone()));
    }
    assert_eq!(a.next_event_idx, b.next_event_idx);
    assert_eq!(a.time, b.time);
    assert_eq!(a.players.len(), b.players.len());
    let pa = a.players.get(&1).unwrap();
    let pb = b.players.get(&1).unwrap();
    assert_eq!(pa.username, pb.username);
    assert_eq!(
        pa.farm.silos[0].storage.iter().collect::<Vec<_>>(),
        pb.farm.silos[0].storage.iter().collect::<Vec<_>>()
    );
}

#[test]
fn edit_of_unknown_player_consumes_the_index_and_fails() {
    let mut state = State::default();
    assert_eq!(
        state.update(envelope(Event::EditPlayer(9, String::from("X")), 0)),
        None
    );
    assert_eq!(state.next_event_idx, 1);
}

#[test]
fn remove_of_unknown_player_is_a_quiet_success() {
    let mut state = State::default();
    assert_eq!(state.update(envelope(Event::RemovePlayer(9), 0)), Some(()));
    assert_eq!(state.next_event_idx, 1);
}

#[test]
fn add_player_overwrites_an_existing_entry() {
    let mut state = State::default();
    state.update(envelope(Event::AddPlayer(1, String::from("old")), 0));
    state.update(envelope(Event::AddPlayer(1, String::from("new")), 1));
    assert_eq!(state.players.len(), 1);
    assert_eq!(state.players.get(&1).unwrap().username, "new");
}

#[test]
fn trade_event_without_originator_only_consumes_its_index() {
    let mut state = two_party_state(
        Some(VeggieQty::new(Veggie::Carrot, 5)),
        Some(VeggieQty::new(Veggie::Carrot, 2).with_max(5)),
    );
    let event = EventData {
        event: Event::Trade(0, 2, 0),
        user_id: None,
        seed: 0,
        event_idx: 0,
    };
    assert_eq!(state.update(event), Some(()));
    assert_eq!(state.next_event_idx, 1);
    assert_eq!(
        state.players.get(&1).unwrap().farm.trucks[0].veggies,
        Some(VeggieQty::new(Veggie::Carrot, 5))
    );
}

#[test]
fn trade_fails_when_the_cargo_does_not_fit_whole() {
    // the visited field has free capacity 3 < 5: all-or-nothing refuses the
    // sale; the partially consumed cargo returns to the visitor, the visited
    // truck keeps its own cargo
    let mut state = two_party_state(
        Some(VeggieQty::new(Veggie::Carrot, 5)),
        Some(VeggieQty::new(Veggie::Carrot, 2).with_max(5)),
    );
    state.trade(1, 2, 0, 0);
    let visitor = state.players.get(&1).unwrap();
    let visited = state.players.get(&2).unwrap();
    assert_eq!(visitor.farm.trucks[0].veggies, Some(VeggieQty::new(Veggie::Carrot, 2)));
    assert_eq!(
        visited.farm.trucks[0].veggies,
        Some(VeggieQty::new(Veggie::Potato, 1).with_max(1))
    );
    assert_eq!(
        visited.farm.fields[0].veggies,
        Some(VeggieQty::new(Veggie::Carrot, 5).with_max(5))
    );
}

#[test]
fn trade_succeeds_when_the_cargo_is_fully_absorbed() {
    let mut state = two_party_state(Some(VeggieQty::new(Veggie::Carrot, 5)), None);
    state.trade(1, 2, 0, 0);
    let visitor = state.players.get(&1).unwrap();
    let visited = state.players.get(&2).unwrap();
    // the visitor takes the visited truck's cargo home
    assert_eq!(
        visitor.farm.trucks[0].veggies,
        Some(VeggieQty::new(Veggie::Potato, 1).with_max(1))
    );
    assert_eq!(visited.farm.trucks[0].veggies, None);
    assert_eq!(
        visited.farm.fields[0].veggies,
        Some(VeggieQty::new(Veggie::Carrot, 5).with_max(5))
    );
}

#[test]
fn trade_with_invalid_indices_preserves_the_state() {
    let mut state = two_party_state(
        Some(VeggieQty::new(Veggie::Carrot, 5)),
        Some(VeggieQty::new(Veggie::Carrot, 2).with_max(5)),
    );
    state.trade(1, 2, 7, 0);
    let visitor = state.players.get(&1).unwrap();
    let visited = state.players.get(&2).unwrap();
    assert_eq!(visitor.farm.trucks[0].veggies, Some(VeggieQty::new(Veggie::Carrot, 5)));
    assert_eq!(
        visited.farm.trucks[0].veggies,
        Some(VeggieQty::new(Veggie::Potato, 1).with_max(1))
    );
    assert_eq!(
        visited.farm.fields[0].veggies,
        Some(VeggieQty::new(Veggie::Carrot, 2).with_max(5))
    );
}

#[test]
fn trade_with_an_unknown_party_preserves_the_state() {
    let mut state = two_party_state(Some(VeggieQty::new(Veggie::Carrot, 5)), None);
    state.trade(1, 9, 0, 0);
    let visitor = state.players.get(&1).unwrap();
    assert_eq!(visitor.farm.trucks[0].veggies, Some(VeggieQty::new(Veggie::Carrot, 5)));
}

#[test]
fn self_trade_on_one_truck_preserves_the_cargo() {
    let mut state = two_party_state(Some(VeggieQty::new(Veggie::Carrot, 5)), None);
    state.trade(1, 1, 0, 0);
    let player = state.players.get(&1).unwrap();
    assert_eq!(player.farm.trucks[0].veggies, Some(VeggieQty::new(Veggie::Carrot, 5)));
}

#[test]
fn view_returns_an_equal_snapshot() {
    let mut state = State::default();
    state.update(envelope(Event::AddPlayer(1, String::from("A")), 0));
    state.update(envelope(Event::Tick, 1));
    let snapshot = state.view(1);
    assert_eq!(snapshot.time, state.time);
    assert_eq!(snapshot.next_event_idx, state.next_event_idx);
    assert_eq!(snapshot.players.len(), state.players.len());
    assert_eq!(
        snapshot.players.get(&1).unwrap().username,
        state.players.get(&1).unwrap().username
    );
    assert_eq!(
        snapshot.players.get(&1).unwrap().farm.silos[0].storage,
        state.players.get(&1).unwrap().farm.silos[0].storage
    );
}

#[test]
fn events_are_visible_to_every_receiver() {
    let event = envelope(Event::Tick, 0);
    assert!(event.filter(1));
    assert!(event.filter(-5));
}

#[test]
fn tick_advances_time_by_one() {
    let mut state = State::default();
    state.update(envelope(Event::Tick, 0));
    state.update(envelope(Event::Tick, 1));
    assert_eq!(state.time, 2);
}

#[test]
fn presence_predicates_divide_elapsed_time_by_speed() {
    let mut state = State::default();
    state.update(envelope(Event::AddPlayer(1, String::from("A")), 0));
    let player = state.players.get(&1).unwrap();
    assert!(player.is_online(359));
    assert!(!player.is_online(360));
    assert!(player.is_active(172799));
    assert!(!player.is_active(172800));
}
