//! A truck: a single cargo slot with a one-record capacity and a cooldown.

use vstd::prelude::*;

use crate::qty::{lemma_add_capacity, VeggieQty};
use crate::Time;

verus! {

/// A cargo slot; a freshly loaded record is capped at one unit.
#[derive(Clone, Copy, Debug, PartialEq, Eq, Structural)]
pub struct Truck {
    pub veggies: Option<VeggieQty>,
    pub wait: Time,
}

impl Truck {
    /// What `load` does: merge into the current cargo if one is present,
    /// otherwise take everything offered and store it with capacity one.
    pub open spec fn spec_load(self, v: VeggieQty) -> (Truck, VeggieQty) {
        match self.veggies {
            Some(c) => {
                let (c2, v2) = c.spec_add(v);
                (Truck { veggies: Some(c2), ..self }, v2)
            },
            None => {
                let (taken, rest) = v.spec_take();
                (Truck { veggies: Some(VeggieQty { max: Some(1), ..taken }), ..self }, rest)
            },
        }
    }

    pub fn new() -> (r: Truck)
        ensures
            r == (Truck { veggies: None, wait: 0 }),
    {
        Truck { veggies: None, wait: 0 }
    }

    /// Offer a record to this truck; whatever does not fit stays in `to_plant`.
    pub fn load(&mut self, to_plant: &mut VeggieQty)
        ensures
            (*final(self), *final(to_plant)) == old(self).spec_load(*old(to_plant)),
    {
        match self.veggies {
            Some(curr) => {
                let mut c = curr;
                c.add(to_plant);
                self.veggies = Some(c);
            },
            None => {
                self.veggies = Some(to_plant.take().with_max(1));
            },
        }
    }

    /// Capacity law at the truck: a merge into an occupied cargo slot keeps
    /// the stored record within its capacity, and what remains in the offer
    /// never grows.
    pub proof fn lemma_load_capacity(self, v: VeggieQty)
        requires
            self.veggies is Some,
            self.veggies->0.wf(),
        ensures
            self.spec_load(v).0.veggies is Some,
            self.spec_load(v).0.veggies->0.wf(),
            self.spec_load(v).1.qty <= v.qty,
    {
        lemma_add_capacity(self.veggies->0, v);
    }

    /// One step of cooldown, floored at zero.
    pub fn tick(&mut self)
        ensures
            *final(self) == (Truck {
                wait: if old(self).wait > 0 {
                    (old(self).wait - 1) as Time
                } else {
                    0
                },
                ..*old(self)
            }),
    {
        if self.wait > 0 {
            self.wait = self.wait - 1;
        }
    }

    pub fn is_ready(&self) -> (r: bool)
        ensures
            r == (self.wait == 0),
    {
        self.wait == 0
    }
}

} // verus!
