//! Verified rendering of unsigned integers as decimal strings.
//!
//! Paths and in-session command lines embed numeric user and group ids; this
//! module pins the exact character sequence such an id renders to.

use vstd::prelude::*;
use vstd::string::StringExecFns;

verus! {

/// The character for a single decimal digit.
pub open spec fn digit_char(d: nat) -> char {
    if d == 0 {
        '0'
    } else if d == 1 {
        '1'
    } else if d == 2 {
        '2'
    } else if d == 3 {
        '3'
    } else if d == 4 {
        '4'
    } else if d == 5 {
        '5'
    } else if d == 6 {
        '6'
    } else if d == 7 {
        '7'
    } else if d == 8 {
        '8'
    } else {
        '9'
    }
}

/// The decimal representation of `n`, most significant digit first, with no
/// leading zeros (zero itself renders as a single digit).
pub open spec fn dec_digits(n: nat) -> Seq<char>
    decreases n,
{
    if n < 10 {
        seq![digit_char(n)]
    } else {
        dec_digits(n / 10) + seq![digit_char(n % 10)]
    }
}

/// The digits collected least significant first, read back in reverse.
spec fn rev_chars(ds: Seq<u64>) -> Seq<char> {
    Seq::new(ds.len(), |i: int| digit_char(ds[ds.len() - 1 - i] as nat))
}

proof fn lemma_rev_chars_push(ds: Seq<u64>, d: u64)
    ensures
        rev_chars(ds.push(d)) =~= seq![digit_char(d as nat)] + rev_chars(ds),
{
}

/// Appends the character of one decimal digit.
fn push_digit(s: &mut String, d: u64)
    requires
        d < 10,
    ensures
        final(s)@ == old(s)@ + seq![digit_char(d as nat)],
{
    let part: &str = if d == 0 {
        "0"
    } else if d == 1 {
        "1"
    } else if d == 2 {
        "2"
    } else if d == 3 {
        "3"
    } else if d == 4 {
        "4"
    } else if d == 5 {
        "5"
    } else if d == 6 {
        "6"
    } else if d == 7 {
        "7"
    } else if d == 8 {
        "8"
    } else {
        "9"
    };
    proof {
        reveal_strlit("0");
        reveal_strlit("1");
        reveal_strlit("2");
        reveal_strlit("3");
        reveal_strlit("4");
        reveal_strlit("5");
        reveal_strlit("6");
        reveal_strlit("7");
        reveal_strlit("8");
        reveal_strlit("9");
        assert(part@ =~= seq![digit_char(d as nat)]);
    }
    s.append(part);
}

/// Renders `n` in decimal.
pub fn u64_to_dec(n: u64) -> (r: String)
    ensures
        r@ == dec_digits(n as nat),
{
    let mut rev: Vec<u64> = Vec::new();
    let mut m: u64 = n;
    loop
        invariant_except_break
            dec_digits(n as nat) == dec_digits(m as nat) + rev_chars(rev@),
            forall|j: int| 0 <= j < rev@.len() ==> rev@[j] < 10,
        ensures
            dec_digits(n as nat) == rev_chars(rev@),
            forall|j: int| 0 <= j < rev@.len() ==> rev@[j] < 10,
        decreases m,
    {
        let d: u64 = m % 10;
        proof {
            lemma_rev_chars_push(rev@, d);
            if m >= 10 {
                assert(dec_digits(m as nat) == dec_digits(m as nat / 10) + seq![
                    digit_char(m as nat % 10),
                ]);
            }
        }
        rev.push(d);
        m = m / 10;
        if m == 0 {
            break ;
        }
    }
    let mut out = String::new();
    let mut i: usize = rev.len();
    while i > 0
        invariant
            i <= rev.len(),
            dec_digits(n as nat) == rev_chars(rev@),
            forall|j: int| 0 <= j < rev@.len() ==> rev@[j] < 10,
            out@ =~= rev_chars(rev@).subrange(0, rev@.len() - i),
        decreases i,
    {
        i = i - 1;
        push_digit(&mut out, rev[i]);
        proof {
            assert(out@ =~= rev_chars(rev@).subrange(0, rev@.len() - i));
        }
    }
    proof {
        assert(out@ =~= rev_chars(rev@));
    }
    out
}

} // verus!
