use vstd::prelude::*;

use crate::text::decimal_text;

verus! {

pub open spec fn limb_base() -> nat {
    0x1_0000_0000_0000_0000
}

/// A 256-bit unsigned integer as four 64-bit limbs, least significant first
/// (the layout of `ethers`' `U256`).
#[derive(Clone, Copy, Debug, PartialEq, Eq)]
pub struct U256Value {
    pub limbs: [u64; 4],
}

pub open spec fn limbs_value(l0: u64, l1: u64, l2: u64, l3: u64) -> nat {
    (l0 + limb_base() * (l1 + limb_base() * (l2 + limb_base() * l3))) as nat
}

impl View for U256Value {
    type V = nat;

    open spec fn view(&self) -> nat {
        limbs_value(self.limbs[0], self.limbs[1], self.limbs[2], self.limbs[3])
    }
}

pub open spec fn u128_max() -> nat {
    0xffff_ffff_ffff_ffff_ffff_ffff_ffff_ffff
}

impl U256Value {
    /// The value `v`.
    pub fn from_u128(v: u128) -> (r: U256Value)
        ensures
            r@ == v,
    {
        let r = U256Value { limbs: [(v % 0x1_0000_0000_0000_0000) as u64, (v / 0x1_0000_0000_0000_0000) as u64, 0, 0] };
        proof {
            assert(v == (v % 0x1_0000_0000_0000_0000) + 0x1_0000_0000_0000_0000 * (v / 0x1_0000_0000_0000_0000));
        }
        r
    }

    pub fn is_zero(&self) -> (r: bool)
        ensures
            r == (self@ == 0),
    {
        self.limbs[0] == 0 && self.limbs[1] == 0 && self.limbs[2] == 0 && self.limbs[3] == 0
    }

    /// The value as a `u128`, or `None` when it exceeds `u128::MAX`.
    pub fn to_u128(&self) -> (r: Option<u128>)
        ensures
            r.is_some() <==> self@ <= u128_max(),
            r matches Some(v) ==> v == self@,
    {
        if self.limbs[2] == 0 && self.limbs[3] == 0 {
            let v: u128 = self.limbs[0] as u128 + (self.limbs[1] as u128) * 0x1_0000_0000_0000_0000;
            Some(v)
        } else {
            proof {
                let base = limb_base();
                let (l0, l1, l2, l3) = (self.limbs[0], self.limbs[1], self.limbs[2], self.limbs[3]);
                assert(l0 + base * (l1 + base * (l2 + base * l3)) >= base * base) by (nonlinear_arith)
                    requires
                        l2 > 0 || l3 > 0,
                        l0 >= 0,
                        l1 >= 0,
                        base > 0,
                ;
                assert(base * base == u128_max() + 1);
            }
            None
        }
    }

    /// `self - other`, which `ethers`' `U256` computes when no borrow is left over.
    pub fn sub(&self, other: &U256Value) -> (r: U256Value)
        requires
            self@ >= other@,
        ensures
            r@ == self@ - other@,
    {
        let base: u128 = 0x1_0000_0000_0000_0000;
        let t0: u128 = self.limbs[0] as u128 + base - other.limbs[0] as u128;
        let d0: u64 = (t0 % base) as u64;
        let b0: u128 = if t0 < base { 1 } else { 0 };
        let t1: u128 = self.limbs[1] as u128 + base - other.limbs[1] as u128 - b0;
        let d1: u64 = (t1 % base) as u64;
        let b1: u128 = if t1 < base { 1 } else { 0 };
        let t2: u128 = self.limbs[2] as u128 + base - other.limbs[2] as u128 - b1;
        let d2: u64 = (t2 % base) as u64;
        let b2: u128 = if t2 < base { 1 } else { 0 };
        proof {
            assert(t0 == d0 + base * (1 - b0));
            assert(t1 == d1 + base * (1 - b1));
            assert(t2 == d2 + base * (1 - b2));
            let x3 = self.limbs[3] - other.limbs[3] - b2;
            assert(self@ - other@ == d0 + limb_base() * (d1 + limb_base() * (d2 + limb_base() * x3)));
            assert(x3 >= 0);
        }
        let d3: u64 = self.limbs[3] - other.limbs[3] - b2 as u64;
        U256Value { limbs: [d0, d1, d2, d3] }
    }
}

/// The decimal numeral of `x`, written by `ethers`' `Display` for `U256`.
/// Trusted: the text is the decimal numeral of the value, most significant digit first.
#[verifier::external_body]
pub(crate) fn u256_decimal(x: &U256Value) -> (s: String)
    ensures
        s@ == decimal_text(x@),
{
    ethers::types::U256(x.limbs).to_string()
}

} // verus!
