//! Small arithmetic helpers.

use vstd::prelude::*;

verus! {

/// Round `x` up to the next multiple of `multiple`; a zero multiple
/// leaves `x` unchanged.
pub fn to_next_multiple(x: u64, multiple: u64) -> (r: u64)
    requires
        multiple == 0 || x % multiple == 0 || x + (multiple - x % multiple) <= u64::MAX,
    ensures
        multiple == 0 ==> r == x,
        multiple > 0 ==> r == x + (if x % multiple == 0 {
            0int
        } else {
            multiple - x % multiple
        }),
        multiple > 0 ==> r % multiple == 0 && x <= r < x + multiple,
{
    if multiple == 0 {
        return x;
    }
    let remainder = x % multiple;
    if remainder == 0 {
        return x;
    }
    let r = x + (multiple - remainder);
    proof {
        let m = multiple as int;
        vstd::arithmetic::div_mod::lemma_fundamental_div_mod(x as int, m);
        assert(r as int == (x as int / m + 1) * m) by (nonlinear_arith)
            requires
                x as int == m * (x as int / m) + remainder,
                r == x + (multiple - remainder),
                m == multiple as int,
        ;
        vstd::arithmetic::div_mod::lemma_mod_multiples_basic(x as int / m + 1, m);
    }
    r
}

} // verus!
