//! Canonical decimal notation for `u64` values, used for the expiry field of
//! the claims payload: most significant digit first, no leading zeros.

use vstd::prelude::*;

verus! {

/// The decimal digits (as ASCII bytes) of a non-negative number.
pub open spec fn spec_dec_digits(n: int) -> Seq<u8>
    decreases n,
{
    if n < 10 {
        seq![(48 + if n >= 0 { n } else { 0 }) as u8]
    } else {
        spec_dec_digits(n / 10) + seq![(48 + n % 10) as u8]
    }
}

/// A canonical decimal numeral: at least one digit, digits only, and no
/// leading zero unless the numeral is exactly "0".
pub open spec fn is_dec_numeral(s: Seq<u8>) -> bool {
    &&& s.len() >= 1
    &&& forall|i: int| 0 <= i < s.len() ==> 48 <= #[trigger] s[i] <= 57
    &&& (s[0] != 48 || s.len() == 1)
}

/// The number a digit string denotes.
pub open spec fn spec_dec_value(s: Seq<u8>) -> int
    decreases s.len(),
{
    if s.len() == 0 {
        0
    } else {
        spec_dec_value(s.drop_last()) * 10 + (s.last() - 48)
    }
}

pub proof fn lemma_dec_value_nonneg(s: Seq<u8>)
    requires
        forall|i: int| 0 <= i < s.len() ==> 48 <= #[trigger] s[i] <= 57,
    ensures
        spec_dec_value(s) >= 0,
    decreases s.len(),
{
    if s.len() > 0 {
        lemma_dec_value_nonneg(s.drop_last());
    }
}

/// The digits of `n` form a canonical numeral that denotes `n`.
pub proof fn lemma_dec_digits_value(n: int)
    requires
        n >= 0,
    ensures
        is_dec_numeral(spec_dec_digits(n)),
        spec_dec_value(spec_dec_digits(n)) == n,
        spec_dec_digits(n)[0] == 48 ==> n == 0,
    decreases n,
{
    if n < 10 {
        let s = spec_dec_digits(n);
        assert(s.drop_last() =~= Seq::<u8>::empty());
        assert(spec_dec_value(Seq::<u8>::empty()) == 0);
        assert(spec_dec_value(s) == 0 * 10 + (s.last() - 48));
    } else {
        lemma_dec_digits_value(n / 10);
        let s = spec_dec_digits(n);
        let p = spec_dec_digits(n / 10);
        assert(s == p + seq![(48 + n % 10) as u8]);
        assert(s.drop_last() =~= p);
        assert(s[0] == p[0]);
        assert(s.last() == (48 + n % 10) as u8);
        assert(spec_dec_value(s) == spec_dec_value(p) * 10 + (n % 10));
        assert(spec_dec_value(p) * 10 + n % 10 == (n / 10) * 10 + n % 10);
        assert((n / 10) * 10 + n % 10 == n);
    }
}

/// Values grow (weakly) with every digit a numeral gains on the right.
pub proof fn lemma_dec_value_prefix_le(s: Seq<u8>, i: int, j: int)
    requires
        0 <= i <= j <= s.len(),
        forall|k: int| 0 <= k < s.len() ==> 48 <= #[trigger] s[k] <= 57,
    ensures
        spec_dec_value(s.take(i)) <= spec_dec_value(s.take(j)),
    decreases j - i,
{
    if i < j {
        lemma_dec_value_prefix_le(s, i, j - 1);
        let t = s.take(j);
        assert(t.drop_last() =~= s.take(j - 1));
        lemma_dec_value_nonneg(s.take(j - 1));
        assert(spec_dec_value(t) == spec_dec_value(s.take(j - 1)) * 10 + (t.last() - 48));
    }
}

/// Append the decimal digits of `n` to `out`.
pub fn push_dec_digits(n: u64, out: &mut Vec<u8>)
    ensures
        final(out)@ == old(out)@ + spec_dec_digits(n as int),
    decreases n,
{
    if n < 10 {
        out.push(48 + n as u8);
        proof {
            assert(old(out)@ + seq![(48 + n as int) as u8] =~= old(out)@ + spec_dec_digits(
                n as int,
            ));
        }
    } else {
        push_dec_digits(n / 10, out);
        out.push(48 + (n % 10) as u8);
        proof {
            assert(old(out)@ + spec_dec_digits(n as int / 10) + seq![(48 + n as int % 10) as u8]
                =~= old(out)@ + spec_dec_digits(n as int));
        }
    }
}

/// Parse a canonical decimal numeral that fits in a `u64`.
///
/// Returns `Some(v)` exactly when the slice is a canonical numeral whose
/// value is at most `u64::MAX`, and then `v` is that value.
pub fn parse_dec_u64(s: &[u8]) -> (r: Option<u64>)
    ensures
        match r {
            Some(v) => is_dec_numeral(s@) && spec_dec_value(s@) == v as int,
            None => !(is_dec_numeral(s@) && spec_dec_value(s@) <= u64::MAX),
        },
{
    if s.len() == 0 {
        return None;
    }
    if s[0] == 48 && s.len() > 1 {
        return None;
    }
    let n = s.len();
    let mut v: u64 = 0;
    let mut i: usize = 0;
    proof {
        assert(s@.take(0) =~= Seq::<u8>::empty());
    }
    while i < n
        invariant
            i <= n,
            n == s@.len(),
            forall|k: int| 0 <= k < i ==> 48 <= #[trigger] s@[k] <= 57,
            spec_dec_value(s@.take(i as int)) == v as int,
        decreases n - i,
    {
        let b = s[i];
        if b < 48 || b > 57 {
            return None;
        }
        let d = b - 48;
        if v > 1844674407370955161 || (v == 1844674407370955161 && d > 5) {
            // the numeral up to and including this digit already exceeds u64::MAX
            proof {
                assert(s@.take(i as int + 1).drop_last() =~= s@.take(i as int));
                assert(s@.take(i as int + 1).last() == b);
                assert(spec_dec_value(s@.take(i as int + 1)) > u64::MAX);
                if is_dec_numeral(s@) {
                    lemma_dec_value_prefix_le(s@, i as int + 1, s@.len() as int);
                    assert(s@.take(s@.len() as int) =~= s@);
                }
            }
            return None;
        }
        v = v * 10 + d as u64;
        proof {
            assert(s@.take(i as int + 1).drop_last() =~= s@.take(i as int));
            assert(s@.take(i as int + 1).last() == b);
        }
        i += 1;
    }
    proof {
        assert(s@.take(n as int) =~= s@);
    }
    Some(v)
}

} // verus!
