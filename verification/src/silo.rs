//! A silo: a FIFO queue of single-unit veggie records, refilled by
//! seed-deterministic weighted draws from the catalog.

use vstd::prelude::*;

use std::collections::VecDeque;

use crate::qty::VeggieQty;
use crate::rng::{draw_weighted, spec_weight_sum, weighted_draws};
use crate::veggie::{catalog, Veggie};
use crate::Seed;

verus! {

/// Mathematical view of a silo: its queue front-first, and its capacity.
#[verifier::ext_equal]
pub ghost struct SiloV {
    pub storage: Seq<VeggieQty>,
    pub max_storage: nat,
}

impl SiloV {
    /// The single-unit record a refill pushes for one drawn veggie.
    pub open spec fn unit_record(v: Veggie) -> VeggieQty {
        VeggieQty { veggie: v, qty: 1, max: Some(1) }
    }

    /// What `refill` does: top the queue up to capacity with single-unit
    /// records of the veggies that the seed's weighted draws yield.
    pub open spec fn spec_refill(self, seed: Seed) -> SiloV {
        let count = if self.storage.len() < self.max_storage {
            self.max_storage - self.storage.len()
        } else {
            0
        };
        let draws = weighted_draws(seed, count as nat, catalog());
        SiloV {
            storage: self.storage + Seq::new(count as nat, |i: int| SiloV::unit_record(draws[i])),
            ..self
        }
    }

    /// What `new` builds: an empty nine-slot silo refilled from the seed.
    pub open spec fn spec_new(seed: Seed) -> SiloV {
        (SiloV { storage: Seq::empty(), max_storage: 9 }).spec_refill(seed)
    }
}

/// A FIFO veggie store; the front is the next record handed out.
#[derive(Clone, Debug)]
pub struct Silo {
    pub storage: VecDeque<VeggieQty>,
    pub max_storage: usize,
}

impl Silo {
    pub open spec fn model(&self) -> SiloV {
        SiloV { storage: self.storage@, max_storage: self.max_storage as nat }
    }

    /// A fresh silo holds nine records drawn from the given seed.
    pub fn new(seed: Seed) -> (r: Silo)
        ensures
            r.model() == SiloV::spec_new(seed),
    {
        let mut barn = Silo { storage: VecDeque::new(), max_storage: 9 };
        barn.refill(seed);
        proof {
            assert(barn.model() =~= SiloV::spec_new(seed));
        }
        barn
    }

    /// Top the queue up to capacity with single-unit records of
    /// seed-deterministic weighted draws; a full silo is left unchanged.
    pub fn refill(&mut self, seed: Seed)
        ensures
            final(self).model() == old(self).model().spec_refill(seed),
    {
        let len = self.storage.len();
        if len < self.max_storage {
            let count = self.max_storage - len;
            let choices = Veggie::all();
            proof {
                assert(spec_weight_sum(catalog())
                    == spec_weight_sum(catalog().drop_last()) + 8);
                assert(catalog().drop_last() =~= seq![Veggie::Carrot]);
                assert(spec_weight_sum(seq![Veggie::Carrot])
                    == spec_weight_sum(seq![Veggie::Carrot].drop_last()) + 6);
                assert(seq![Veggie::Carrot].drop_last() =~= Seq::<Veggie>::empty());
                assert(spec_weight_sum(catalog()) == 14);
            }
            let draws = draw_weighted(seed, count, &choices);
            let ghost drawn = weighted_draws(seed, count as nat, catalog());
            let mut i: usize = 0;
            while i < count
                invariant
                    i <= count,
                    draws@ == drawn,
                    draws@.len() == count as nat,
                    self.max_storage == old(self).max_storage,
                    self.storage@ == old(self).storage@
                        + Seq::new(i as nat, |j: int| SiloV::unit_record(drawn[j])),
                decreases count - i,
            {
                self.storage.push_back(VeggieQty::new(draws[i], 1).with_max(1));
                i = i + 1;
                proof {
                    assert(self.storage@ =~= old(self).storage@
                        + Seq::new(i as nat, |j: int| SiloV::unit_record(drawn[j])));
                }
            }
            proof {
                assert(self.model() =~= old(self).model().spec_refill(seed));
            }
        } else {
            proof {
                assert(self.model() =~= old(self).model().spec_refill(seed));
            }
        }
    }
}

impl Silo {
    /// A record-for-record copy of this silo.
    pub fn duplicate(&self) -> (r: Silo)
        ensures
            r.model() == self.model(),
    {
        let mut storage: VecDeque<VeggieQty> = VecDeque::new();
        let n = self.storage.len();
        let mut i: usize = 0;
        while i < n
            invariant
                i <= n,
                n == self.storage@.len(),
                storage@ == self.storage@.take(i as int),
            decreases n - i,
        {
            storage.push_back(self.storage[i]);
            proof {
                assert(storage@ =~= self.storage@.take(i + 1));
            }
            i = i + 1;
        }
        proof {
            assert(storage@ =~= self.storage@);
        }
        Silo { storage, max_storage: self.max_storage }
    }
}

/// Capacity law at the silo: every record a refill queues is a single unit
/// within its one-unit capacity.
pub proof fn lemma_refill_records_wf(s: SiloV, seed: Seed)
    ensures
        forall|i: int|
            s.storage.len() <= i < s.spec_refill(seed).storage.len()
                ==> #[trigger] s.spec_refill(seed).storage[i].wf(),
{
}

/// Refill determinism law: two silos whose queues start at the same length and
/// that share the same capacity receive, for the same seed, the identical
/// sequence of drawn records.
pub proof fn lemma_refill_deterministic(a: SiloV, b: SiloV, seed: Seed)
    requires
        a.storage.len() == b.storage.len(),
        a.max_storage == b.max_storage,
    ensures
        a.spec_refill(seed).storage.skip(a.storage.len() as int)
            == b.spec_refill(seed).storage.skip(b.storage.len() as int),
{
    assert(a.spec_refill(seed).storage.skip(a.storage.len() as int)
        =~= b.spec_refill(seed).storage.skip(b.storage.len() as int));
}

} // verus!
