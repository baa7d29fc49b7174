//! Character-level string building blocks: decimal rendering and padding.
//!
//! Everything here is specified against `Seq<char>` models, so the layout
//! code can state the exact text it produces.

use vstd::prelude::*;
use vstd::string::*;

verus! {

pub open spec fn digit_char(d: int) -> char {
    if d == 0 {
        '0'
    } else if d == 1 {
        '1'
    } else if d == 2 {
        '2'
    } else if d == 3 {
        '3'
    } else if d == 4 {
        '4'
    } else if d == 5 {
        '5'
    } else if d == 6 {
        '6'
    } else if d == 7 {
        '7'
    } else if d == 8 {
        '8'
    } else {
        '9'
    }
}

/// The decimal rendering of `n`, most significant digit first.
pub open spec fn dec_str(n: nat) -> Seq<char>
    decreases n,
{
    if n < 10 {
        seq![digit_char(n as int)]
    } else {
        dec_str(n / 10) + seq![digit_char((n % 10) as int)]
    }
}

/// `n` spaces.
pub open spec fn spaces(n: int) -> Seq<char>
    decreases n,
{
    if n <= 0 {
        Seq::empty()
    } else {
        spaces(n - 1).push(' ')
    }
}

/// `s` left-aligned in a field of width `w` (unchanged when already wider).
pub open spec fn pad_right(s: Seq<char>, w: int) -> Seq<char> {
    if s.len() >= w {
        s
    } else {
        s + spaces(w - s.len())
    }
}

/// `s` right-aligned in a field of width `w` (unchanged when already wider).
pub open spec fn pad_left(s: Seq<char>, w: int) -> Seq<char> {
    if s.len() >= w {
        s
    } else {
        spaces(w - s.len()) + s
    }
}

pub open spec fn pow10(k: nat) -> nat
    decreases k,
{
    if k == 0 {
        1
    } else {
        10 * pow10((k - 1) as nat)
    }
}

pub proof fn lemma_dec_str_len_bounded(n: nat, k: nat)
    requires
        k >= 1,
        n < pow10(k),
    ensures
        dec_str(n).len() <= k,
    decreases k,
{
    if n >= 10 {
        assert(pow10(k) == 10 * pow10((k - 1) as nat));
        assert(n / 10 < pow10((k - 1) as nat)) by (nonlinear_arith)
            requires
                n < 10 * pow10((k - 1) as nat),
        ;
        lemma_dec_str_len_bounded(n / 10, (k - 1) as nat);
    }
}

/// Any machine-word value has at most 20 decimal digits.
pub proof fn lemma_dec_str_len_usize(n: usize)
    ensures
        dec_str(n as nat).len() <= 20,
{
    assert(pow10(20) > usize::MAX as nat) by {
        reveal_with_fuel(pow10, 21);
    }
    lemma_dec_str_len_bounded(n as nat, 20);
}

pub proof fn lemma_dec_str_len(n: nat)
    requires
        n >= 1,
    ensures
        1 <= dec_str(n).len() <= n,
    decreases n,
{
    if n >= 10 {
        lemma_dec_str_len(n / 10);
    }
}

/// Relies on `String::push`: appends the given character to the end of
/// this string.
#[verifier::external_body]
pub fn push_char(s: &mut String, c: char)
    ensures
        final(s)@ == old(s)@.push(c),
{
    s.push(c);
}

fn digit_to_char(d: usize) -> (c: char)
    requires
        d < 10,
    ensures
        c == digit_char(d as int),
{
    if d == 0 {
        '0'
    } else if d == 1 {
        '1'
    } else if d == 2 {
        '2'
    } else if d == 3 {
        '3'
    } else if d == 4 {
        '4'
    } else if d == 5 {
        '5'
    } else if d == 6 {
        '6'
    } else if d == 7 {
        '7'
    } else if d == 8 {
        '8'
    } else {
        '9'
    }
}

/// Renders `n` in decimal.
pub fn fmt_usize(n: usize) -> (r: String)
    ensures
        r@ == dec_str(n as nat),
    decreases n,
{
    if n < 10 {
        let mut r = String::new();
        push_char(&mut r, digit_to_char(n));
        proof {
            assert(r@ =~= dec_str(n as nat));
        }
        r
    } else {
        let mut r = fmt_usize(n / 10);
        push_char(&mut r, digit_to_char(n % 10));
        proof {
            assert(r@ =~= dec_str(n as nat));
        }
        r
    }
}

/// Left-aligns `s` in a field of `w` spaces.
pub fn pad_right_str(s: &str, w: usize) -> (r: String)
    ensures
        r@ == pad_right(s@, w as int),
{
    let len = s.unicode_len();
    let mut r = s.to_owned();
    if len >= w {
        return r;
    }
    let mut k = len;
    proof {
        assert(r@ =~= s@ + spaces(k - s@.len()));
    }
    while k < w
        invariant
            s@.len() <= k <= w,
            r@ == s@ + spaces(k - s@.len()),
        decreases w - k,
    {
        push_char(&mut r, ' ');
        k = k + 1;
        proof {
            assert(r@ =~= s@ + spaces(k - s@.len()));
        }
    }
    r
}

/// Right-aligns `s` in a field of `w` spaces.
pub fn pad_left_str(s: &str, w: usize) -> (r: String)
    ensures
        r@ == pad_left(s@, w as int),
{
    let len = s.unicode_len();
    if len >= w {
        return s.to_owned();
    }
    let mut r = String::new();
    let mut k: usize = 0;
    proof {
        assert(r@ =~= spaces(0));
    }
    while k < w - len
        invariant
            len == s@.len() < w,
            k <= w - len,
            r@ == spaces(k as int),
        decreases w - len - k,
    {
        push_char(&mut r, ' ');
        k = k + 1;
        proof {
            assert(r@ =~= spaces(k as int));
        }
    }
    r.append(s);
    r
}

} // verus!
