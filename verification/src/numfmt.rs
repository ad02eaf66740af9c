//! Decimal rendering of unsigned counts.

use vstd::prelude::*;
use crate::strutil::chars_to_string;

verus! {

/// The decimal digit character for a value below ten.
pub open spec fn dec_digit(d: int) -> char {
    ((d + 48) as u8) as char
}

/// The decimal representation of a number, most significant digit first,
/// with no leading zeros (zero itself is the single digit `0`).
pub open spec fn dec_rep(n: nat) -> Seq<char>
    decreases n,
{
    if n < 10 {
        seq![dec_digit(n as int)]
    } else {
        dec_rep(n / 10).push(dec_digit((n % 10) as int))
    }
}

/// Render a count in decimal.
pub fn u64_to_decimal(n: u64) -> (r: String)
    ensures
        r@ == dec_rep(n as nat),
{
    let mut rev: Vec<char> = Vec::new();
    let mut m: u64 = n;
    let ghost mut tail: Seq<char> = Seq::empty();
    proof {
        assert(dec_rep(n as nat) =~= dec_rep(n as nat) + tail);
    }
    loop
        invariant
            m > 0 ==> dec_rep(n as nat) == dec_rep(m as nat) + tail,
            m == 0 && tail.len() > 0 ==> dec_rep(n as nat) == tail,
            m == 0 && tail.len() == 0 ==> n == 0,
            rev@.len() == tail.len(),
            forall|j: int| 0 <= j < tail.len() ==> rev@[j] == tail[tail.len() - 1 - j],
        ensures
            dec_rep(n as nat) == tail,
            rev@.len() == tail.len(),
            forall|j: int| 0 <= j < tail.len() ==> rev@[j] == tail[tail.len() - 1 - j],
        decreases m, (if tail.len() == 0 { 1int } else { 0int }),
    {
        if m == 0 && rev.len() > 0 {
            break ;
        }
        let d: u8 = (m % 10) as u8;
        let c: char = (48 + d) as char;
        rev.push(c);
        proof {
            let m0 = m as nat;
            let tail_old = tail;
            let digit = seq![dec_digit((m0 % 10) as int)];
            tail = digit + tail_old;
            assert(tail.drop_first() =~= tail_old);
            if m0 == 0 {
                assert(dec_rep(n as nat) =~= tail);
            } else if m0 / 10 > 0 {
                assert(dec_rep(m0) =~= dec_rep(m0 / 10) + digit);
                assert(dec_rep(m0 / 10) + tail =~= (dec_rep(m0 / 10) + digit) + tail_old);
                assert(dec_rep(n as nat) == dec_rep(m0 / 10) + tail);
            } else {
                assert(dec_rep(m0) =~= digit);
                assert(dec_rep(n as nat) =~= tail);
            }
        }
        m = m / 10;
        if m == 0 {
            break ;
        }
    }
    let mut out: Vec<char> = Vec::new();
    let mut i: usize = 0;
    while i < rev.len()
        invariant
            i <= rev@.len(),
            rev@.len() == tail.len(),
            forall|j: int| 0 <= j < tail.len() ==> rev@[j] == tail[tail.len() - 1 - j],
            out@ == tail.take(i as int),
        decreases rev@.len() - i,
    {
        let c = rev[rev.len() - 1 - i];
        out.push(c);
        proof {
            assert(tail.take(i + 1) =~= tail.take(i as int).push(tail[i as int]));
        }
        i += 1;
    }
    proof {
        assert(tail.take(tail.len() as int) =~= tail);
    }
    chars_to_string(&out)
}

} // verus!
