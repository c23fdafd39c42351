//! Farm-level behavior: the pop/offer/requeue pattern and the economy.

use farm_core::farm::Farm;
use farm_core::field::Field;
use farm_core::qty::VeggieQty;
use farm_core::silo::Silo;
use farm_core::truck::Truck;
use farm_core::veggie::Veggie;

fn farm_with(fields: Vec<Field>, trucks: Vec<Truck>, silos: Vec<Silo>) -> Farm {
    Farm { fields, trucks, silos, tractors: Vec::new(), money: 0 }
}

#[test]
fn new_farm_has_one_seeded_silo_and_one_tractor() {
    let farm = Farm::new(5);
    assert!(farm.fields.is_empty());
    assert!(farm.trucks.is_empty());
    assert_eq!(farm.silos.len(), 1);
    assert_eq!(farm.silos[0].storage.len(), 9);
    assert_eq!(farm.tractors.len(), 1);
    assert_eq!(farm.tractors[0].wait, 0);
    assert_eq!(farm.money, 0);
}

#[test]
fn plant_field_moves_the_front_record_into_a_field() {
    let mut farm = farm_with(vec![Field::new()], Vec::new(), vec![Silo::new(11)]);
    let front = *farm.silos[0].storage.front().unwrap();
    farm.plant_field(0);
    assert_eq!(farm.silos[0].storage.len(), 8);
    assert_eq!(
        farm.fields[0].veggies,
        Some(VeggieQty::new(front.veggie(), 1).with_max(5))
    );
}

#[test]
fn plant_field_requeues_what_no_field_absorbs() {
    // no fields at all: the popped record must go back to the silo's front
    let mut farm = farm_with(Vec::new(), Vec::new(), vec![Silo::new(11)]);
    let before: Vec<VeggieQty> = farm.silos[0].storage.iter().copied().collect();
    farm.plant_field(0);
    let after: Vec<VeggieQty> = farm.silos[0].storage.iter().copied().collect();
    assert_eq!(after, before);
}

#[test]
fn plant_field_with_bad_index_is_a_no_op() {
    let mut farm = farm_with(vec![Field::new()], Vec::new(), vec![Silo::new(11)]);
    farm.plant_field(3);
    assert_eq!(farm.silos[0].storage.len(), 9);
    assert_eq!(farm.fields[0].veggies, None);
}

#[test]
fn load_truck_moves_the_front_record_onto_a_truck() {
    let mut farm = farm_with(Vec::new(), vec![Truck::new()], vec![Silo::new(11)]);
    let front = *farm.silos[0].storage.front().unwrap();
    farm.load_truck(0);
    assert_eq!(farm.silos[0].storage.len(), 8);
    assert_eq!(
        farm.trucks[0].veggies,
        Some(VeggieQty::new(front.veggie(), 1).with_max(1))
    );
}

#[test]
fn load_truck_requeues_when_no_truck_takes_the_record() {
    let mut farm = farm_with(Vec::new(), Vec::new(), vec![Silo::new(11)]);
    let before: Vec<VeggieQty> = farm.silos[0].storage.iter().copied().collect();
    farm.load_truck(0);
    let after: Vec<VeggieQty> = farm.silos[0].storage.iter().copied().collect();
    assert_eq!(after, before);
}

#[test]
fn harvest_field_credits_the_value() {
    let mut farm = farm_with(
        vec![Field { veggies: Some(VeggieQty::new(Veggie::Carrot, 5).with_max(5)), max_veggies: 5 }],
        Vec::new(),
        Vec::new(),
    );
    farm.harvest_field(0);
    assert_eq!(farm.money, 32);
    assert_eq!(farm.fields[0].veggies, None);
    farm.harvest_field(0);
    assert_eq!(farm.money, 32);
    farm.harvest_field(9);
    assert_eq!(farm.money, 32);
}

#[test]
fn tick_is_a_quiet_hook() {
    let mut farm = Farm::new(1);
    let silo_before: Vec<VeggieQty> = farm.silos[0].storage.iter().copied().collect();
    farm.tick();
    let silo_after: Vec<VeggieQty> = farm.silos[0].storage.iter().copied().collect();
    assert_eq!(silo_after, silo_before);
    assert_eq!(farm.money, 0);
}
