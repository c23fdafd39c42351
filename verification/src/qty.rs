//! The universal resource record: a typed, bounded quantity of one commodity,
//! with the merge/split transfer rules every container is built on.

use vstd::prelude::*;

use crate::veggie::{spec_value, Veggie};
use crate::{Money, Quantity};

verus! {

/// A typed quantity of one veggie, optionally bounded by a capacity.
#[derive(Clone, Copy, Debug, PartialEq, Eq, Structural)]
pub struct VeggieQty {
    pub veggie: Veggie,
    pub qty: Quantity,
    pub max: Option<Quantity>,
}

impl VeggieQty {
    /// The record respects its capacity, when one is set.
    pub open spec fn wf(self) -> bool {
        match self.max {
            Some(m) => self.qty <= m,
            None => true,
        }
    }

    /// What `add` does: if the kinds match and the destination has a capacity,
    /// it absorbs as much of the source as fits; otherwise nothing moves.
    /// Returns the destination and the source after the transfer.
    pub open spec fn spec_add(self, other: VeggieQty) -> (VeggieQty, VeggieQty) {
        if self.veggie == other.veggie {
            match self.max {
                Some(m) => {
                    let remaining: Quantity = if self.qty <= m {
                        (m - self.qty) as Quantity
                    } else {
                        0
                    };
                    let moved: Quantity = if other.qty < remaining {
                        other.qty
                    } else {
                        remaining
                    };
                    (
                        VeggieQty { qty: (self.qty + moved) as Quantity, ..self },
                        VeggieQty { qty: (other.qty - moved) as Quantity, ..other },
                    )
                },
                None => (self, other),
            }
        } else {
            (self, other)
        }
    }

    /// What `take` does: the full quantity moves into a brand-new record with
    /// no capacity limit, and the source is left empty.
    pub open spec fn spec_take(self) -> (VeggieQty, VeggieQty) {
        (
            VeggieQty { veggie: self.veggie, qty: self.qty, max: None },
            VeggieQty { qty: 0, ..self },
        )
    }

    pub fn new(veggie: Veggie, qty: Quantity) -> (r: VeggieQty)
        ensures
            r == (VeggieQty { veggie, qty, max: None }),
    {
        VeggieQty { veggie, qty, max: None }
    }

    pub fn with_max(self, max: Quantity) -> (r: VeggieQty)
        ensures
            r == (VeggieQty { max: Some(max), ..self }),
    {
        VeggieQty { max: Some(max), ..self }
    }

    pub fn qty(&self) -> (r: Quantity)
        ensures
            r == self.qty,
    {
        self.qty
    }

    pub fn veggie(&self) -> (r: Veggie)
        ensures
            r == self.veggie,
    {
        self.veggie
    }

    /// Merge `other` into `self`: only records of the same kind merge, and only
    /// into a destination with a known capacity; what does not fit stays in
    /// `other`. A kind mismatch or a capacity-less destination is a no-op,
    /// not an error.
    pub fn add(&mut self, other: &mut VeggieQty)
        ensures
            (*final(self), *final(other)) == old(self).spec_add(*old(other)),
    {
        if self.veggie == other.veggie {
            if let Some(max) = self.max {
                let remaining: Quantity = if self.qty <= max {
                    max - self.qty
                } else {
                    0
                };
                let moved: Quantity = if other.qty < remaining {
                    other.qty
                } else {
                    remaining
                };
                self.qty = self.qty + moved;
                other.qty = other.qty - moved;
            }
        }
    }

    /// Drain this record completely into a fresh record with no capacity
    /// limit; `self` keeps its kind and capacity but holds nothing.
    pub fn take(&mut self) -> (r: VeggieQty)
        ensures
            r == old(self).spec_take().0,
            *final(self) == old(self).spec_take().1,
    {
        let r = VeggieQty { veggie: self.veggie, qty: self.qty, max: None };
        self.qty = 0;
        r
    }

    /// Monetary value of this record's holdings.
    pub fn value(&self) -> (r: Money)
        requires
            spec_value(self.veggie, self.qty as nat) <= u64::MAX,
        ensures
            r == spec_value(self.veggie, self.qty as nat),
    {
        self.veggie.value(self.qty)
    }

    pub fn is_empty(&self) -> (r: bool)
        ensures
            r == (self.qty == 0),
    {
        self.qty == 0
    }
}

/// Capacity law: a merge never overfills a bounded record and never creates or
/// destroys units — the two quantities are only redistributed — and a record
/// that respected its capacity before a merge still does after it, on either
/// side of the transfer.
pub proof fn lemma_add_capacity(a: VeggieQty, b: VeggieQty)
    ensures
        a.spec_add(b).0.qty + a.spec_add(b).1.qty == a.qty + b.qty,
        a.wf() ==> a.spec_add(b).0.wf(),
        b.wf() ==> a.spec_add(b).1.wf(),
{
}

} // verus!
