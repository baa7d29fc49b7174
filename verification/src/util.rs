//! Decimal digit counting, used to size the "(position / total)" counter.

use vstd::prelude::*;

use crate::text::dec_str;
use crate::text::lemma_dec_str_len;
use crate::text::lemma_dec_str_len_usize;

verus! {

/// Number of characters in the decimal rendering of `n`.
pub fn digits(n: usize) -> (c: usize)
    ensures
        c == dec_str(n as nat).len(),
        1 <= c <= 20,
{
    proof {
        lemma_dec_str_len_usize(n);
    }
    if n == 0 {
        assert(dec_str(0).len() == 1);
        return 1;
    }
    let mut m = n;
    let mut c: usize = 0;
    while m > 0
        invariant
            n >= 1,
            if m > 0 {
                dec_str(n as nat).len() == c + dec_str(m as nat).len()
            } else {
                dec_str(n as nat).len() == c
            },
        decreases m,
    {
        proof {
            lemma_dec_str_len(n as nat);
            lemma_dec_str_len(m as nat);
        }
        m = m / 10;
        c = c + 1;
    }
    c
}

} // verus!
