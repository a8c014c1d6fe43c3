use vstd::arithmetic::div_mod::{lemma_fundamental_div_mod, lemma_fundamental_div_mod_converse};
use vstd::prelude::*;

verus! {

/// The combo index that follows `i` on a track whose last index is `last`:
/// one more, wrapping to 0 past `last`.
pub open spec fn next_combo(i: int, last: int) -> int {
    if i < last {
        i + 1
    } else {
        0
    }
}

/// The combo index after `k` attacks have ended in a row, starting from the
/// first hit.
pub open spec fn combo_after(last: int, k: nat) -> int
    decreases k,
{
    if k == 0 {
        0
    } else {
        next_combo(combo_after(last, (k - 1) as nat), last)
    }
}

/// Ending attacks one after another cycles the combo index through
/// 0, 1, ..., last and back to 0: after `k` endings it is `k` modulo
/// `last + 1`.
pub proof fn lemma_combo_wraps(last: int, k: nat)
    requires
        last >= 0,
    ensures
        combo_after(last, k) == (k as int) % (last + 1),
    decreases k,
{
    if k == 0 {
        assert(0int % (last + 1) == 0);
    } else {
        lemma_combo_wraps(last, (k - 1) as nat);
        let m = last + 1;
        let prev = k - 1;
        let q = prev / m;
        let r = prev % m;
        lemma_fundamental_div_mod(prev, m);
        if r + 1 < m {
            lemma_fundamental_div_mod_converse(k as int, m, q, r + 1);
        } else {
            assert(k == (q + 1) * m) by (nonlinear_arith)
                requires
                    k == q * m + r + 1,
                    r + 1 == m,
            ;
            lemma_fundamental_div_mod_converse(k as int, m, q + 1, 0);
        }
        assert(combo_after(last, (k - 1) as nat) == r);
        assert(combo_after(last, k) == next_combo(r, last));
    }
}

} // verus!
