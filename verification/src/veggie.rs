//! The commodity catalog: a finite set of veggie kinds, each with an
//! index-derived base weight and an exponential valuation function.

use vstd::prelude::*;
use vstd::arithmetic::power::pow;

use crate::{Money, Quantity, QTY_GAP, QTY_LEAST, QTY_TOTAL};

verus! {

/// A tradeable commodity kind.
#[derive(Clone, Copy, Debug, PartialEq, Eq, Hash, Structural)]
pub enum Veggie {
    Carrot,
    Potato,
}

/// Position of a veggie in the catalog; base weights grow with it.
pub open spec fn spec_catalog_index(v: Veggie) -> nat {
    match v {
        Veggie::Carrot => 0,
        Veggie::Potato => 1,
    }
}

/// The full catalog, in catalog order.
pub open spec fn catalog() -> Seq<Veggie> {
    seq![Veggie::Carrot, Veggie::Potato]
}

/// Quantity weight of a veggie: `QTY_LEAST + index * QTY_GAP`.
pub open spec fn spec_qty(v: Veggie) -> nat {
    (QTY_LEAST + spec_catalog_index(v) * QTY_GAP) as nat
}

/// Monetary value of holding `qty` units of `v`:
/// `(QTY_TOTAL / weight) ^ qty`, an exponential curve that rewards large
/// holdings of common (low-weight) veggies.
pub open spec fn spec_value(v: Veggie, qty: nat) -> nat {
    pow((QTY_TOTAL as int) / (spec_qty(v) as int), qty) as nat
}

impl Veggie {
    /// The catalog, in order; every weighted draw chooses from it.
    pub fn all() -> (r: Vec<Veggie>)
        ensures
            r@ == catalog(),
    {
        let mut r: Vec<Veggie> = Vec::new();
        r.push(Veggie::Carrot);
        r.push(Veggie::Potato);
        proof {
            assert(r@ =~= catalog());
        }
        r
    }

    /// Quantity weight of this veggie.
    pub fn qty(self) -> (r: Quantity)
        ensures
            r == spec_qty(self),
    {
        match self {
            Veggie::Carrot => QTY_LEAST,
            Veggie::Potato => QTY_LEAST + QTY_GAP,
        }
    }

    /// Monetary value of holding `qty` units of this veggie.
    pub fn value(self, qty: Quantity) -> (r: Money)
        requires
            spec_value(self, qty as nat) <= u64::MAX,
        ensures
            r == spec_value(self, qty as nat),
    {
        let base: u64 = QTY_TOTAL / self.qty();
        let ghost b: int = base as int;
        proof {
            assert(QTY_TOTAL == 14);
            match self {
                Veggie::Carrot => {
                    assert(spec_qty(self) == 6);
                    assert(14int / 6int == 2) by (nonlinear_arith);
                }
                Veggie::Potato => {
                    assert(spec_qty(self) == 8);
                    assert(14int / 8int == 1) by (nonlinear_arith);
                }
            }
            assert(base == 1 || base == 2);
        }
        if base <= 1 {
            proof {
                vstd::arithmetic::power::lemma1_pow(qty as nat);
            }
            1
        } else {
            let mut acc: u64 = 1;
            let mut i: u64 = 0;
            proof {
                vstd::arithmetic::power::lemma_pow0(b);
            }
            while i < qty
                invariant
                    0 <= i <= qty,
                    base > 1,
                    b == base as int,
                    acc == pow(b, i as nat),
                    pow(b, qty as nat) <= u64::MAX,
                decreases qty - i,
            {
                proof {
                    vstd::arithmetic::power::lemma_pow_increases(
                        base as nat,
                        (i + 1) as nat,
                        qty as nat,
                    );
                    vstd::arithmetic::power::lemma_pow_positive(b, i as nat);
                    assert(pow(b, (i + 1) as nat) == pow(b, i as nat) * b) by {
                        vstd::arithmetic::power::lemma_pow1(b);
                        vstd::arithmetic::power::lemma_pow_adds(b, i as nat, 1);
                    }
                }
                acc = acc * base;
                i = i + 1;
            }
            acc
        }
    }

    /// File name of this veggie's picture, as the presentation layer expects it.
    pub fn image_name(self) -> (r: String)
        ensures
            self == Veggie::Carrot ==> r@ == "carrot.png"@,
            self == Veggie::Potato ==> r@ == "potato.png"@,
    {
        match self {
            Veggie::Carrot => "carrot.png".to_owned(),
            Veggie::Potato => "potato.png".to_owned(),
        }
    }
}

} // verus!
