//! A farm: the per-player collection of containers plus its derived economy.

use vstd::prelude::*;

use crate::field::Field;
use crate::qty::VeggieQty;
use crate::silo::{Silo, SiloV};
use crate::tractor::Tractor;
use crate::truck::Truck;
use crate::{Money, Seed};

verus! {

/// Mathematical view of a farm.
#[verifier::ext_equal]
pub ghost struct FarmV {
    pub fields: Seq<Field>,
    pub trucks: Seq<Truck>,
    pub silos: Seq<SiloV>,
    pub tractors: Seq<Tractor>,
    pub money: nat,
}

/// Offer a record to every field in order, first-fit; returns the fields and
/// what is left of the offer.
pub open spec fn spec_plant_seq(fields: Seq<Field>, v: VeggieQty) -> (Seq<Field>, VeggieQty)
    decreases fields.len(),
{
    if fields.len() == 0 {
        (fields, v)
    } else {
        let (f0, v1) = fields[0].spec_plant(v);
        let (rest, v2) = spec_plant_seq(fields.drop_first(), v1);
        (seq![f0] + rest, v2)
    }
}

/// Offer a record to every truck in order, first-fit; returns the trucks and
/// what is left of the offer.
pub open spec fn spec_load_seq(trucks: Seq<Truck>, v: VeggieQty) -> (Seq<Truck>, VeggieQty)
    decreases trucks.len(),
{
    if trucks.len() == 0 {
        (trucks, v)
    } else {
        let (t0, v1) = trucks[0].spec_load(v);
        let (rest, v2) = spec_load_seq(trucks.drop_first(), v1);
        (seq![t0] + rest, v2)
    }
}

/// Offering a record to a row of fields touches no field slot count.
pub proof fn lemma_plant_seq_len(fields: Seq<Field>, v: VeggieQty)
    ensures
        spec_plant_seq(fields, v).0.len() == fields.len(),
    decreases fields.len(),
{
    if fields.len() > 0 {
        lemma_plant_seq_len(fields.drop_first(), fields[0].spec_plant(v).1);
    }
}

/// Offering a record to a row of trucks touches no truck slot count.
pub proof fn lemma_load_seq_len(trucks: Seq<Truck>, v: VeggieQty)
    ensures
        spec_load_seq(trucks, v).0.len() == trucks.len(),
    decreases trucks.len(),
{
    if trucks.len() > 0 {
        lemma_load_seq_len(trucks.drop_first(), trucks[0].spec_load(v).1);
    }
}

impl FarmV {
    /// What `Farm::new` builds.
    pub open spec fn spec_new(seed: Seed) -> FarmV {
        FarmV {
            fields: Seq::empty(),
            trucks: Seq::empty(),
            silos: seq![SiloV::spec_new(seed)],
            tractors: seq![Tractor { wait: 0 }],
            money: 0,
        }
    }

    /// What `plant_field` does: pop the addressed silo's front record, offer
    /// it to every field in order, and requeue any remainder at the front.
    pub open spec fn spec_plant_field(self, silo_index: int) -> FarmV {
        if 0 <= silo_index < self.silos.len() && self.silos[silo_index].storage.len() > 0 {
            let silo = self.silos[silo_index];
            let popped = silo.storage.first();
            let drained = SiloV { storage: silo.storage.drop_first(), ..silo };
            let (fields2, left) = spec_plant_seq(self.fields, popped);
            let silo2 = if left.qty == 0 {
                drained
            } else {
                SiloV { storage: seq![left] + drained.storage, ..drained }
            };
            FarmV { fields: fields2, silos: self.silos.update(silo_index, silo2), ..self }
        } else {
            self
        }
    }

    /// What `load_truck` does: the same pop/offer/requeue pattern over trucks.
    pub open spec fn spec_load_truck(self, silo_index: int) -> FarmV {
        if 0 <= silo_index < self.silos.len() && self.silos[silo_index].storage.len() > 0 {
            let silo = self.silos[silo_index];
            let popped = silo.storage.first();
            let drained = SiloV { storage: silo.storage.drop_first(), ..silo };
            let (trucks2, left) = spec_load_seq(self.trucks, popped);
            let silo2 = if left.qty == 0 {
                drained
            } else {
                SiloV { storage: seq![left] + drained.storage, ..drained }
            };
            FarmV { trucks: trucks2, silos: self.silos.update(silo_index, silo2), ..self }
        } else {
            self
        }
    }

    /// What `harvest_field` does: clear the addressed field and credit its
    /// value to the farm's money.
    pub open spec fn spec_harvest_field(self, field_index: int) -> FarmV {
        if 0 <= field_index < self.fields.len() {
            let f = self.fields[field_index];
            FarmV {
                fields: self.fields.update(field_index, Field { veggies: None, ..f }),
                money: self.money + f.spec_harvest_money(),
                ..self
            }
        } else {
            self
        }
    }
}

/// An element-for-element copy of a vector of plain values.
fn copy_vec<T: Copy>(v: &Vec<T>) -> (r: Vec<T>)
    ensures
        r@ == v@,
{
    let mut r: Vec<T> = Vec::new();
    let n = v.len();
    let mut i: usize = 0;
    while i < n
        invariant
            i <= n,
            n == v@.len(),
            r@ == v@.take(i as int),
        decreases n - i,
    {
        r.push(v[i]);
        proof {
            assert(r@ =~= v@.take(i + 1));
        }
        i = i + 1;
    }
    proof {
        assert(r@ =~= v@);
    }
    r
}

/// The per-player collection of containers and money.
#[derive(Clone, Debug)]
pub struct Farm {
    pub fields: Vec<Field>,
    pub trucks: Vec<Truck>,
    pub silos: Vec<Silo>,
    pub tractors: Vec<Tractor>,
    pub money: Money,
}

impl Farm {
    pub open spec fn model(&self) -> FarmV {
        FarmV {
            fields: self.fields@,
            trucks: self.trucks@,
            silos: self.silos@.map_values(|s: Silo| s.model()),
            tractors: self.tractors@,
            money: self.money as nat,
        }
    }

    /// A fresh farm: no fields or trucks, one seeded silo, one tractor,
    /// no money.
    pub fn new(seed: Seed) -> (r: Farm)
        ensures
            r.model() == FarmV::spec_new(seed),
    {
        let r = Farm {
            money: 0,
            fields: Vec::new(),
            silos: vec![Silo::new(seed)],
            trucks: Vec::new(),
            tractors: vec![Tractor::new()],
        };
        proof {
            assert(r.model() =~= FarmV::spec_new(seed));
        }
        r
    }

    /// A container-for-container copy of this farm.
    pub fn duplicate(&self) -> (r: Farm)
        ensures
            r.model() == self.model(),
    {
        let fields: Vec<Field> = copy_vec(&self.fields);
        let trucks: Vec<Truck> = copy_vec(&self.trucks);
        let tractors: Vec<Tractor> = copy_vec(&self.tractors);
        let mut silos: Vec<Silo> = Vec::new();
        let n = self.silos.len();
        let mut i: usize = 0;
        while i < n
            invariant
                i <= n,
                n == self.silos@.len(),
                silos@.len() == i as nat,
                forall|j: int|
                    0 <= j < i ==> #[trigger] silos@[j].model() == self.silos@[j].model(),
            decreases n - i,
        {
            silos.push(self.silos[i].duplicate());
            i = i + 1;
        }
        let r = Farm { fields, trucks, silos, tractors, money: self.money };
        proof {
            assert(r.silos@.map_values(|s: Silo| s.model())
                =~= self.silos@.map_values(|s: Silo| s.model()));
            assert(r.model() =~= self.model());
        }
        r
    }

    /// Hook for periodic farm-level effects; none exist yet.
    pub fn tick(&mut self)
        ensures
            final(self).model() == old(self).model(),
    {
    }

    /// Pop the front record of the addressed silo and offer it to the farm's
    /// own fields; an invalid index or an empty silo is a no-op.
    pub fn plant_field(&mut self, silo_index: usize)
        ensures
            final(self).model() == old(self).model().spec_plant_field(silo_index as int),
    {
        if silo_index < self.silos.len() {
            let mut silo = self.silos.remove(silo_index);
            let popped = silo.storage.pop_front();
            self.silos.insert(silo_index, silo);
            let ghost drained = self.silos@[silo_index as int].model();
            proof {
                assert(self.silos@.map_values(|s: Silo| s.model())
                    =~= old(self).silos@.map_values(|s: Silo| s.model()).update(
                    silo_index as int,
                    drained,
                ));
            }
            match popped {
                Some(mut veggies) => {
                    self.plant_veggies(&mut veggies);
                    proof {
                        assert(drained.storage =~= old(self).silos@[silo_index as int]
                            .model().storage.drop_first());
                        lemma_plant_seq_len(old(self).fields@, old(self).silos@[
                            silo_index as int].model().storage.first());
                    }
                    if !veggies.is_empty() {
                        let ghost mid2 = *self;
                        let mut silo = self.silos.remove(silo_index);
                        silo.storage.push_front(veggies);
                        self.silos.insert(silo_index, silo);
                        proof {
                            assert(mid2.silos@[silo_index as int].model() == drained);
                            assert(self.silos@.map_values(|s: Silo| s.model())
                                =~= mid2.silos@.map_values(|s: Silo| s.model()).update(
                                silo_index as int,
                                self.silos@[silo_index as int].model(),
                            ));
                            assert(self.silos@[silo_index as int].model().storage
                                =~= seq![veggies] + drained.storage);
                        }
                    }
                    proof {
                        assert(self.model() =~= old(self).model().spec_plant_field(
                            silo_index as int,
                        ));
                    }
                },
                None => {
                    proof {
                        assert(self.model() =~= old(self).model().spec_plant_field(
                            silo_index as int,
                        ));
                    }
                },
            }
        }
    }

    /// Offer a record to every field in order; what no field absorbed stays
    /// in `veggies`.
    pub fn plant_veggies(&mut self, veggies: &mut VeggieQty)
        ensures
            final(self).model() == (FarmV {
                fields: spec_plant_seq(old(self).fields@, *old(veggies)).0,
                ..old(self).model()
            }),
            *final(veggies) == spec_plant_seq(old(self).fields@, *old(veggies)).1,
            final(self).trucks == old(self).trucks,
            final(self).silos == old(self).silos,
            final(self).tractors == old(self).tractors,
            final(self).money == old(self).money,
    {
        let ghost result = spec_plant_seq(old(self).fields@, *old(veggies));
        let n = self.fields.len();
        let mut i: usize = 0;
        proof {
            lemma_plant_seq_len(old(self).fields@, *old(veggies));
            assert(old(self).fields@.skip(0) =~= old(self).fields@);
            assert(result.0.skip(0) =~= result.0);
            assert(self.fields@ =~= result.0.take(0) + old(self).fields@.skip(0));
        }
        while i < n
            invariant
                i <= n,
                n == self.fields.len(),
                n == old(self).fields@.len(),
                result == spec_plant_seq(old(self).fields@, *old(veggies)),
                result.0.len() == n,
                self.fields@ == result.0.take(i as int) + old(self).fields@.skip(i as int),
                spec_plant_seq(old(self).fields@.skip(i as int), *veggies)
                    == (result.0.skip(i as int), result.1),
                self.trucks == old(self).trucks,
                self.silos == old(self).silos,
                self.tractors == old(self).tractors,
                self.money == old(self).money,
            decreases n - i,
        {
            let ghost vs = *veggies;
            let ghost unprocessed = old(self).fields@.skip(i as int);
            let mut f = self.fields[i];
            proof {
                assert(unprocessed[0] == old(self).fields@[i as int]);
                assert(f == unprocessed[0]);
            }
            f.plant(veggies);
            self.fields.set(i, f);
            proof {
                let (f0, v1) = unprocessed[0].spec_plant(vs);
                let (rest, v2) = spec_plant_seq(unprocessed.drop_first(), v1);
                assert(spec_plant_seq(unprocessed, vs) == (seq![f0] + rest, v2));
                assert(result.0.skip(i as int) == seq![f0] + rest);
                assert(result.0.skip(i as int)[0] == f0);
                assert(unprocessed.drop_first() =~= old(self).fields@.skip(i + 1));
                assert(rest =~= result.0.skip(i as int).drop_first());
                assert(result.0.skip(i as int).drop_first() =~= result.0.skip(i + 1));
                assert(self.fields@ =~= result.0.take(i + 1) + old(self).fields@.skip(i + 1));
            }
            i = i + 1;
        }
        proof {
            assert(old(self).fields@.skip(n as int) =~= Seq::<Field>::empty());
            assert(self.fields@ =~= result.0);
            assert(self.model() =~= (FarmV { fields: result.0, ..old(self).model() }));
        }
    }

    /// Clear the addressed field and credit its value; an invalid index is a
    /// no-op.
    pub fn harvest_field(&mut self, field_index: usize)
        requires
            field_index < old(self).fields@.len() ==> old(self).money
                + old(self).fields@[field_index as int].spec_harvest_money() <= u64::MAX,
        ensures
            final(self).model() == old(self).model().spec_harvest_field(field_index as int),
    {
        if field_index < self.fields.len() {
            let mut f = self.fields[field_index];
            let gain = f.harvest();
            self.fields.set(field_index, f);
            self.money = self.money + gain;
            proof {
                assert(self.model() =~= old(self).model().spec_harvest_field(
                    field_index as int,
                ));
            }
        }
    }

    /// Pop the front record of the addressed silo and offer it to the farm's
    /// own trucks; an invalid index or an empty silo is a no-op.
    pub fn load_truck(&mut self, silo_index: usize)
        ensures
            final(self).model() == old(self).model().spec_load_truck(silo_index as int),
    {
        if silo_index < self.silos.len() {
            let mut silo = self.silos.remove(silo_index);
            let popped = silo.storage.pop_front();
            self.silos.insert(silo_index, silo);
            let ghost drained = self.silos@[silo_index as int].model();
            proof {
                assert(self.silos@.map_values(|s: Silo| s.model())
                    =~= old(self).silos@.map_values(|s: Silo| s.model()).update(
                    silo_index as int,
                    drained,
                ));
            }
            match popped {
                Some(mut veggies) => {
                    let ghost mid = *self;
                    let ghost v0 = veggies;
                    let ghost result = spec_load_seq(old(self).trucks@, v0);
                    let n = self.trucks.len();
                    let mut i: usize = 0;
                    proof {
                        lemma_load_seq_len(old(self).trucks@, v0);
                        assert(old(self).trucks@.skip(0) =~= old(self).trucks@);
                        assert(result.0.skip(0) =~= result.0);
                        assert(self.trucks@ =~= result.0.take(0) + old(self).trucks@.skip(0));
                    }
                    while i < n
                        invariant
                            i <= n,
                            n == self.trucks.len(),
                            n == old(self).trucks@.len(),
                            result == spec_load_seq(old(self).trucks@, v0),
                            result.0.len() == n,
                            self.trucks@ == result.0.take(i as int)
                                + old(self).trucks@.skip(i as int),
                            spec_load_seq(old(self).trucks@.skip(i as int), veggies)
                                == (result.0.skip(i as int), result.1),
                            self.fields == mid.fields,
                            self.silos == mid.silos,
                            self.tractors == mid.tractors,
                            self.money == mid.money,
                        decreases n - i,
                    {
                        let ghost vs = veggies;
                        let ghost unprocessed = old(self).trucks@.skip(i as int);
                        let mut t = self.trucks[i];
                        proof {
                            assert(unprocessed[0] == old(self).trucks@[i as int]);
                            assert(t == unprocessed[0]);
                        }
                        t.load(&mut veggies);
                        self.trucks.set(i, t);
                        proof {
                            let (t0, v1) = unprocessed[0].spec_load(vs);
                            let (rest, v2) = spec_load_seq(unprocessed.drop_first(), v1);
                            assert(spec_load_seq(unprocessed, vs) == (seq![t0] + rest, v2));
                            assert(result.0.skip(i as int) == seq![t0] + rest);
                            assert(result.0.skip(i as int)[0] == t0);
                            assert(unprocessed.drop_first() =~= old(self).trucks@.skip(i + 1));
                            assert(rest =~= result.0.skip(i as int).drop_first());
                            assert(result.0.skip(i as int).drop_first() =~= result.0.skip(i + 1));
                            assert(self.trucks@ =~= result.0.take(i + 1)
                                + old(self).trucks@.skip(i + 1));
                        }
                        i = i + 1;
                    }
                    proof {
                        assert(old(self).trucks@.skip(n as int) =~= Seq::<Truck>::empty());
                        assert(self.trucks@ =~= result.0);
                        assert(drained.storage =~= old(self).silos@[silo_index as int]
                            .model().storage.drop_first());
                    }
                    if !veggies.is_empty() {
                        let ghost mid2 = *self;
                        let mut silo = self.silos.remove(silo_index);
                        silo.storage.push_front(veggies);
                        self.silos.insert(silo_index, silo);
                        proof {
                            assert(self.silos@.map_values(|s: Silo| s.model())
                                =~= mid2.silos@.map_values(|s: Silo| s.model()).update(
                                silo_index as int,
                                self.silos@[silo_index as int].model(),
                            ));
                            assert(self.silos@[silo_index as int].model().storage
                                =~= seq![veggies] + drained.storage);
                        }
                    }
                    proof {
                        assert(self.model() =~= old(self).model().spec_load_truck(
                            silo_index as int,
                        ));
                    }
                },
                None => {
                    proof {
                        assert(self.model() =~= old(self).model().spec_load_truck(
                            silo_index as int,
                        ));
                    }
                },
            }
        }
    }
}

} // verus!
