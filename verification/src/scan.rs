//! Small byte-sequence scanning helpers shared by the token codec: first
//! occurrence of a byte, prefix tests, and appending one buffer to another.

use vstd::prelude::*;

verus! {

/// Index of the first occurrence of `b` in `s`, `None` when `s` has none.
pub open spec fn find_byte(s: Seq<u8>, b: u8) -> Option<int>
    decreases s.len(),
{
    if s.len() == 0 {
        None
    } else if s[0] == b {
        Some(0int)
    } else {
        match find_byte(s.skip(1), b) {
            Some(i) => Some(i + 1),
            None => None,
        }
    }
}

/// What `find_byte` returns, spelled out positionally.
pub proof fn lemma_find_byte_spec(s: Seq<u8>, b: u8)
    ensures
        match find_byte(s, b) {
            Some(i) => 0 <= i < s.len() && s[i] == b && forall|j: int| 0 <= j < i ==> s[j] != b,
            None => forall|j: int| 0 <= j < s.len() ==> s[j] != b,
        },
    decreases s.len(),
{
    if s.len() == 0 {
    } else if s[0] == b {
    } else {
        lemma_find_byte_spec(s.skip(1), b);
        match find_byte(s.skip(1), b) {
            Some(i2) => {
                assert(s[i2 + 1] == s.skip(1)[i2]);
                assert forall|j: int| 0 <= j < i2 + 1 implies s[j] != b by {
                    if j > 0 {
                        assert(s[j] == s.skip(1)[j - 1]);
                    }
                }
            },
            None => {
                assert forall|j: int| 0 <= j < s.len() implies s[j] != b by {
                    if j > 0 {
                        assert(s[j] == s.skip(1)[j - 1]);
                    }
                }
            },
        }
    }
}

/// The positional description determines `find_byte`: a first occurrence at
/// `i` means `find_byte` returns `Some(i)`.
pub proof fn lemma_find_byte_from_witness(s: Seq<u8>, b: u8, i: int)
    requires
        0 <= i < s.len(),
        s[i] == b,
        forall|j: int| 0 <= j < i ==> s[j] != b,
    ensures
        find_byte(s, b) == Some(i),
    decreases s.len(),
{
    if i == 0 {
    } else {
        assert(s.skip(1)[i - 1] == b);
        assert forall|j: int| 0 <= j < i - 1 implies s.skip(1)[j] != b by {
            assert(s.skip(1)[j] == s[j + 1]);
        }
        lemma_find_byte_from_witness(s.skip(1), b, i - 1);
    }
}

/// No occurrence at all means `find_byte` returns `None`.
pub proof fn lemma_find_byte_none(s: Seq<u8>, b: u8)
    requires
        forall|j: int| 0 <= j < s.len() ==> s[j] != b,
    ensures
        find_byte(s, b) is None,
{
    lemma_find_byte_spec(s, b);
    if find_byte(s, b) is Some {
        let i = find_byte(s, b).unwrap();
        assert(s[i] == b);
    }
}

/// `pre` is a prefix of `s`.
pub open spec fn starts_with(s: Seq<u8>, pre: Seq<u8>) -> bool {
    s.len() >= pre.len() && s.take(pre.len() as int) == pre
}

/// Splitting a concatenation back apart at the seam.
pub proof fn lemma_starts_with_concat(a: Seq<u8>, rest: Seq<u8>)
    ensures
        starts_with(a + rest, a),
        (a + rest).skip(a.len() as int) == rest,
{
    assert((a + rest).take(a.len() as int) =~= a);
    assert((a + rest).skip(a.len() as int) =~= rest);
}

/// In `a + [b] + c` with `b` absent from `a`, the first `b` sits right after `a`.
pub proof fn lemma_find_byte_after(a: Seq<u8>, b: u8, c: Seq<u8>)
    requires
        forall|j: int| 0 <= j < a.len() ==> a[j] != b,
    ensures
        find_byte(a + seq![b] + c, b) == Some(a.len() as int),
        (a + seq![b] + c).take(a.len() as int) == a,
        (a + seq![b] + c).skip(a.len() as int + 1) == c,
{
    let s = a + seq![b] + c;
    assert(s[a.len() as int] == b);
    lemma_find_byte_from_witness(s, b, a.len() as int);
    assert(s.take(a.len() as int) =~= a);
    assert(s.skip(a.len() as int + 1) =~= c);
}

/// Does `s`, read from position `i`, start with `pre`?
pub fn has_prefix_at(s: &[u8], i: usize, pre: &[u8]) -> (r: bool)
    requires
        i <= s@.len(),
    ensures
        r == starts_with(s@.skip(i as int), pre@),
{
    if s.len() - i < pre.len() {
        proof {
            assert(s@.skip(i as int).len() < pre@.len());
        }
        return false;
    }
    let n = s.len();
    let mut k: usize = 0;
    while k < pre.len()
        invariant
            k <= pre@.len(),
            i + pre@.len() <= s@.len(),
            n == s@.len(),
            forall|j: int| 0 <= j < k ==> s@[i + j] == pre@[j],
        decreases pre@.len() - k,
    {
        if s[i + k] != pre[k] {
            proof {
                assert(s@.skip(i as int)[k as int] != pre@[k as int]);
                assert(s@.skip(i as int).take(pre@.len() as int)[k as int] != pre@[k as int]);
            }
            return false;
        }
        k += 1;
    }
    proof {
        assert(s@.skip(i as int).take(pre@.len() as int) =~= pre@);
    }
    true
}

/// First occurrence of `b` in `s` at or after position `i`, as an absolute
/// position.
pub fn find_byte_from(s: &[u8], i: usize, b: u8) -> (r: Option<usize>)
    requires
        i <= s@.len(),
    ensures
        match r {
            Some(p) => i <= p < s@.len() && find_byte(s@.skip(i as int), b) == Some(p - i),
            None => find_byte(s@.skip(i as int), b) is None,
        },
{
    let mut k: usize = i;
    while k < s.len()
        invariant
            i <= k <= s@.len(),
            forall|j: int| i <= j < k ==> s@[j] != b,
        decreases s@.len() - k,
    {
        if s[k] == b {
            proof {
                let t = s@.skip(i as int);
                assert(t[k - i] == b);
                assert forall|j: int| 0 <= j < k - i implies t[j] != b by {
                    assert(t[j] == s@[i + j]);
                }
                lemma_find_byte_from_witness(t, b, k - i);
            }
            return Some(k);
        }
        k += 1;
    }
    proof {
        let t = s@.skip(i as int);
        assert forall|j: int| 0 <= j < t.len() implies t[j] != b by {
            assert(t[j] == s@[i + j]);
        }
        lemma_find_byte_none(t, b);
    }
    None
}

/// Append all of `src` to `out`.
pub fn push_bytes(out: &mut Vec<u8>, src: &[u8])
    ensures
        final(out)@ == old(out)@ + src@,
{
    let mut k: usize = 0;
    while k < src.len()
        invariant
            k <= src@.len(),
            out@ == old(out)@ + src@.take(k as int),
        decreases src@.len() - k,
    {
        out.push(src[k]);
        proof {
            assert(old(out)@ + src@.take(k as int) + seq![src@[k as int]] =~= old(out)@
                + src@.take(k as int + 1));
        }
        k += 1;
    }
    proof {
        assert(src@.take(src@.len() as int) =~= src@);
    }
}

/// Do two byte slices hold the same bytes?
pub fn bytes_eq(a: &[u8], b: &[u8]) -> (r: bool)
    ensures
        r == (a@ == b@),
{
    if a.len() != b.len() {
        proof {
            assert(a@.len() != b@.len());
        }
        return false;
    }
    let mut k: usize = 0;
    while k < a.len()
        invariant
            k <= a@.len(),
            a@.len() == b@.len(),
            forall|j: int| 0 <= j < k ==> a@[j] == b@[j],
        decreases a@.len() - k,
    {
        if a[k] != b[k] {
            return false;
        }
        k += 1;
    }
    proof {
        assert(a@ =~= b@);
    }
    true
}

} // verus!
