//! Vectors are carried through the library as sequences of 32-bit words,
//! each word the IEEE 754 bit pattern of one single-precision component.
//! A word is *finite* when its exponent field is not all ones, i.e. the
//! component is neither an infinity nor a NaN. The indexing algorithm's
//! distance computations are free of faults on finite components, so
//! finiteness is the admission condition the registry enforces.

use vstd::prelude::*;

verus! {

/// The bit pattern encodes a finite component: the 8-bit exponent field is
/// not saturated.
pub open spec fn comp_finite(c: u32) -> bool {
    (c >> 23) & 0xff != 0xff
}

/// Every component of the vector is finite.
pub open spec fn vec_finite(v: Seq<u32>) -> bool {
    forall|i: int| 0 <= i < v.len() ==> comp_finite(#[trigger] v[i])
}

/// Runtime check that one component is finite.
pub fn check_comp_finite(c: u32) -> (r: bool)
    ensures
        r == comp_finite(c),
{
    (c >> 23) & 0xff != 0xff
}

/// Runtime check that every component of a vector is finite.
pub fn check_vec_finite(v: &Vec<u32>) -> (r: bool)
    ensures
        r == vec_finite(v@),
{
    let mut i: usize = 0;
    while i < v.len()
        invariant
            i <= v@.len(),
            forall|j: int| 0 <= j < i ==> comp_finite(#[trigger] v@[j]),
        decreases v@.len() - i,
    {
        if !check_comp_finite(v[i]) {
            return false;
        }
        i = i + 1;
    }
    true
}

} // verus!
