//! A field: a single planting slot bounded by a fixed capacity.

use vstd::prelude::*;

use crate::qty::{lemma_add_capacity, VeggieQty};
use crate::veggie::spec_value;
use crate::{Money, Quantity};

verus! {

/// A planting slot; the stored record's capacity is pinned to `max_veggies`.
#[derive(Clone, Copy, Debug, PartialEq, Eq, Structural)]
pub struct Field {
    pub veggies: Option<VeggieQty>,
    pub max_veggies: Quantity,
}

impl Field {
    /// What `plant` does: merge into the current record if one is stored,
    /// otherwise take everything offered and store it under this field's
    /// capacity. Returns the field and the offer after the call.
    pub open spec fn spec_plant(self, v: VeggieQty) -> (Field, VeggieQty) {
        match self.veggies {
            Some(c) => {
                let (c2, v2) = c.spec_add(v);
                (Field { veggies: Some(c2), ..self }, v2)
            },
            None => {
                let (taken, rest) = v.spec_take();
                (
                    Field { veggies: Some(VeggieQty { max: Some(self.max_veggies), ..taken }), ..self },
                    rest,
                )
            },
        }
    }

    /// The money `harvest` yields: the value of the stored record, or zero.
    pub open spec fn spec_harvest_money(self) -> nat {
        match self.veggies {
            Some(c) => spec_value(c.veggie, c.qty as nat),
            None => 0,
        }
    }

    pub fn new() -> (r: Field)
        ensures
            r == (Field { veggies: None, max_veggies: 5 }),
    {
        Field { veggies: None, max_veggies: 5 }
    }

    /// Offer a record to this field; whatever does not fit stays in `to_plant`
    /// for the caller to offer elsewhere.
    pub fn plant(&mut self, to_plant: &mut VeggieQty)
        ensures
            (*final(self), *final(to_plant)) == old(self).spec_plant(*old(to_plant)),
    {
        match self.veggies {
            Some(curr) => {
                let mut c = curr;
                c.add(to_plant);
                self.veggies = Some(c);
            },
            None => {
                self.veggies = Some(to_plant.take().with_max(self.max_veggies));
            },
        }
    }

    /// Capacity law at the field: a merge into an occupied field keeps the
    /// stored record within its capacity, and what remains in the offer never
    /// grows.
    pub proof fn lemma_plant_capacity(self, v: VeggieQty)
        requires
            self.veggies is Some,
            self.veggies->0.wf(),
        ensures
            self.spec_plant(v).0.veggies is Some,
            self.spec_plant(v).0.veggies->0.wf(),
            self.spec_plant(v).1.qty <= v.qty,
    {
        lemma_add_capacity(self.veggies->0, v);
    }

    /// Clear the field and return the monetary value of what it held;
    /// an empty field yields zero.
    pub fn harvest(&mut self) -> (r: Money)
        requires
            old(self).spec_harvest_money() <= u64::MAX,
        ensures
            r == old(self).spec_harvest_money(),
            *final(self) == (Field { veggies: None, ..*old(self) }),
    {
        match self.veggies.take() {
            Some(v) => v.value(),
            None => 0,
        }
    }
}

} // verus!
