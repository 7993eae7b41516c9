//! Facts about integer division that the layout arithmetic rests on.

use vstd::prelude::*;
use vstd::arithmetic::div_mod::lemma_fundamental_div_mod;

verus! {

/// For a positive divisor, a quotient is at most `k` exactly when the
/// dividend is below `d * (k + 1)`, and at least `k` exactly when the
/// dividend is at least `d * k`.
pub proof fn lemma_quotient_bounds(x: int, d: int, k: int)
    requires
        0 <= x,
        0 < d,
    ensures
        x / d <= k <==> x < d * (k + 1),
        k <= x / d <==> d * k <= x,
{
    lemma_fundamental_div_mod(x, d);
    let q = x / d;
    let r = x % d;
    assert(q <= k <==> d * q + r < d * (k + 1)) by (nonlinear_arith)
        requires
            0 <= r < d,
    ;
    assert(k <= q <==> d * k <= d * q + r) by (nonlinear_arith)
        requires
            0 <= r < d,
    ;
}

} // verus!
