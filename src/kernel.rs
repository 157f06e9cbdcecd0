use vstd::prelude::*;

use crate::divisibility::{gcf, is_greatest_common_factor, lemma_gcf_is_greatest_common_factor};

verus! {

/// Why an operand was refused.
#[derive(Debug, Clone, Copy, PartialEq, Eq, Structural)]
pub enum GcfError {
    /// One of the operands is below zero.
    NegativeOperand,
}

/// The greatest common factor of `a` and `b`, by the iterative Euclidean
/// algorithm. Negative operands are refused rather than reduced.
pub fn calculate_gcf(a: isize, b: isize) -> (r: Result<isize, GcfError>)
    ensures
        match r {
            Ok(g) => {
                &&& 0 <= a
                &&& 0 <= b
                &&& g == gcf(a as nat, b as nat)
                &&& is_greatest_common_factor(g as nat, a as nat, b as nat)
            },
            Err(e) => (a < 0 || b < 0) && e == GcfError::NegativeOperand,
        },
{
    if a < 0 || b < 0 {
        return Err(GcfError::NegativeOperand);
    }
    let mut x: isize = a;
    let mut y: isize = b;
    while y != 0
        invariant
            0 <= x,
            0 <= y,
            gcf(x as nat, y as nat) == gcf(a as nat, b as nat),
        decreases y,
    {
        let t: isize = y;
        y = x % y;
        x = t;
    }
    proof {
        lemma_gcf_is_greatest_common_factor(a as nat, b as nat);
    }
    Ok(x)
}

} // verus!
