//! Verified rendering of integers as decimal text, used to build the
//! human-readable entries of the message log.

use vstd::prelude::*;
use vstd::string::StrSliceExecFns;
use vstd::string::StringExecFns;

verus! {

/// The decimal digit character for a value between 0 and 9.
pub open spec fn digit_char(d: int) -> char {
    if d == 0 {
        '0'
    } else if d == 1 {
        '1'
    } else if d == 2 {
        '2'
    } else if d == 3 {
        '3'
    } else if d == 4 {
        '4'
    } else if d == 5 {
        '5'
    } else if d == 6 {
        '6'
    } else if d == 7 {
        '7'
    } else if d == 8 {
        '8'
    } else {
        '9'
    }
}

/// The decimal digits of a non-negative value, most significant first.
pub open spec fn spec_udigits(n: int) -> Seq<char>
    decreases n,
{
    if n < 10 {
        seq![digit_char(n)]
    } else {
        spec_udigits(n / 10).push(digit_char(n % 10))
    }
}

/// The decimal rendering of an integer, with a leading minus sign when
/// negative.
pub open spec fn spec_int_string(n: int) -> Seq<char> {
    if n < 0 {
        seq!['-'] + spec_udigits(-n)
    } else {
        spec_udigits(n)
    }
}

/// The digit characters of a digit list, highest index first.
spec fn rev_digit_chars(s: Seq<u8>) -> Seq<char>
    decreases s,
{
    if s.len() == 0 {
        Seq::empty()
    } else {
        seq![digit_char(s[s.len() - 1] as int)] + rev_digit_chars(s.subrange(0, s.len() - 1))
    }
}

proof fn lemma_rev_digit_chars_concat(a: Seq<u8>, b: Seq<u8>)
    ensures
        rev_digit_chars(a + b) == rev_digit_chars(b) + rev_digit_chars(a),
    decreases b.len(),
{
    if b.len() == 0 {
        assert(a + b =~= a);
        assert(rev_digit_chars(b) + rev_digit_chars(a) =~= rev_digit_chars(a));
    } else {
        let ab = a + b;
        assert(ab[ab.len() - 1] == b[b.len() - 1]);
        assert(ab.subrange(0, ab.len() - 1) =~= a + b.subrange(0, b.len() - 1));
        lemma_rev_digit_chars_concat(a, b.subrange(0, b.len() - 1));
        assert(rev_digit_chars(a + b) =~= rev_digit_chars(b) + rev_digit_chars(a));
    }
}

/// One digit of `"0123456789"` as a one-character string slice.
fn digit_str(d: usize) -> (r: &'static str)
    requires
        d < 10,
    ensures
        r@ == seq![digit_char(d as int)],
{
    let digits = "0123456789";
    proof {
        reveal_strlit("0123456789");
    }
    let r = digits.substring_ascii(d, d + 1);
    proof {
        assert(r@ =~= seq![digit_char(d as int)]);
    }
    r
}

/// Renders a non-negative value in decimal.
fn append_udigits(s: &mut String, n: u64)
    ensures
        final(s)@ == old(s)@ + spec_udigits(n as int),
{
    let mut digs: Vec<u8> = Vec::new();
    let mut m: u64 = n;
    proof {
        assert(rev_digit_chars(digs@) =~= Seq::<char>::empty());
        assert(spec_udigits(n as int) + rev_digit_chars(digs@) =~= spec_udigits(n as int));
    }
    loop
        invariant
            m > 0 ==> spec_udigits(n as int) == spec_udigits(m as int) + rev_digit_chars(digs@),
            m == 0 && digs@.len() > 0 ==> spec_udigits(n as int) == rev_digit_chars(digs@),
            m == 0 && digs@.len() == 0 ==> n == 0,
            forall|k: int| 0 <= k < digs@.len() ==> digs@[k] < 10,
        ensures
            digs@.len() > 0,
            spec_udigits(n as int) == rev_digit_chars(digs@),
            forall|k: int| 0 <= k < digs@.len() ==> digs@[k] < 10,
        decreases m, (if digs@.len() == 0 { 1int } else { 0int }),
    {
        if m == 0 && digs.len() > 0 {
            break;
        }
        let d: u8 = (m % 10) as u8;
        let m2: u64 = m / 10;
        proof {
            let pd = digs@.push(d);
            assert(pd.subrange(0, pd.len() - 1) =~= digs@);
            assert(pd[pd.len() - 1] == d);
            assert(rev_digit_chars(pd) == seq![digit_char(d as int)] + rev_digit_chars(digs@));
            if m == 0 {
                assert(rev_digit_chars(digs@) =~= Seq::<char>::empty());
                assert(rev_digit_chars(pd) =~= seq![digit_char(d as int)]);
                assert(spec_udigits(n as int) =~= rev_digit_chars(pd));
            } else if m2 > 0 {
                assert(spec_udigits(m as int) =~= spec_udigits(m2 as int) + seq![
                    digit_char(d as int),
                ]);
                assert(spec_udigits(m2 as int) + rev_digit_chars(pd) =~= (spec_udigits(m2 as int)
                    + seq![digit_char(d as int)]) + rev_digit_chars(digs@));
                assert(spec_udigits(n as int) == spec_udigits(m2 as int) + rev_digit_chars(pd));
            } else {
                assert(spec_udigits(m as int) =~= seq![digit_char(d as int)]);
                assert(spec_udigits(n as int) =~= rev_digit_chars(pd));
            }
        }
        digs.push(d);
        m = m2;
    }
    proof {
        lemma_rev_digit_chars_len(digs@);
        assert(spec_udigits(n as int).subrange(0, 0) =~= Seq::<char>::empty());
        assert(s@ + Seq::<char>::empty() =~= s@);
    }
    let len = digs.len();
    let mut j: usize = len;
    while j > 0
        invariant
            j <= len,
            len == digs@.len(),
            forall|k: int| 0 <= k < digs@.len() ==> digs@[k] < 10,
            s@ == old(s)@ + spec_udigits(n as int).subrange(
                0,
                spec_udigits(n as int).len() - j as int,
            ),
            spec_udigits(n as int) == rev_digit_chars(digs@),
            spec_udigits(n as int).len() == len,
        decreases j,
    {
        let d = digs[j - 1];
        s.append(digit_str(d as usize));
        proof {
            let full = spec_udigits(n as int);
            let lo = digs@.subrange(0, j - 1 as int);
            let one = digs@.subrange(j - 1 as int, j as int);
            let hi = digs@.subrange(j as int, len as int);
            assert(digs@ =~= (lo + one) + hi);
            lemma_rev_digit_chars_concat(lo + one, hi);
            lemma_rev_digit_chars_concat(lo, one);
            lemma_rev_digit_chars_len(lo);
            lemma_rev_digit_chars_len(hi);
            assert(one.subrange(0, one.len() - 1) =~= Seq::<u8>::empty());
            assert(rev_digit_chars(one.subrange(0, one.len() - 1)) =~= Seq::<char>::empty());
            assert(rev_digit_chars(one) =~= seq![digit_char(d as int)]);
            assert(full =~= (rev_digit_chars(hi) + seq![digit_char(d as int)]) + rev_digit_chars(
                lo,
            ));
            assert(rev_digit_chars(hi).len() == hi.len());
            assert(rev_digit_chars(lo).len() == lo.len());
            assert(full.subrange(0, full.len() - (j - 1)) =~= full.subrange(0, full.len() - j)
                + seq![digit_char(d as int)]);
        }
        j -= 1;
    }
    proof {
        assert(spec_udigits(n as int).subrange(0, spec_udigits(n as int).len() as int)
            =~= spec_udigits(n as int));
    }
}

proof fn lemma_rev_digit_chars_len(s: Seq<u8>)
    ensures
        rev_digit_chars(s).len() == s.len(),
    decreases s,
{
    if s.len() > 0 {
        lemma_rev_digit_chars_len(s.subrange(0, s.len() - 1));
    }
}

/// Renders an integer in decimal, minus sign included.
pub fn i64_to_string(n: i64) -> (s: String)
    ensures
        s@ == spec_int_string(n as int),
{
    let mut s = String::new();
    if n < 0 {
        s.append("-");
        proof {
            reveal_strlit("-");
            assert(s@ =~= seq!['-']);
        }
        let mag: u64 = ((-(n as i128)) as u64);
        append_udigits(&mut s, mag);
        proof {
            assert(seq!['-'] + spec_udigits(mag as int) =~= spec_int_string(n as int));
        }
    } else {
        append_udigits(&mut s, n as u64);
        proof {
            assert(Seq::<char>::empty() + spec_udigits(n as int) =~= spec_udigits(n as int));
        }
    }
    s
}

/// Renders an entry id in decimal.
pub fn i32_to_string(n: i32) -> (s: String)
    ensures
        s@ == spec_int_string(n as int),
{
    i64_to_string(n as i64)
}

} // verus!
