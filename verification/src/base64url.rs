//! Base64url codec (RFC 4648 section 5, no padding), used for the token's
//! wire segments. The decoder is strict: it rejects characters outside the
//! alphabet, impossible lengths, and non-zero trailing bits, so a decoded
//! segment is always the canonical encoding of its bytes.

use vstd::prelude::*;

verus! {

/// ASCII byte of a 6-bit value under the base64url alphabet.
pub open spec fn b64_char_of(v: int) -> u8 {
    if v < 26 {
        (65 + v) as u8  // 'A'..'Z'
    } else if v < 52 {
        (97 + (v - 26)) as u8  // 'a'..'z'
    } else if v < 62 {
        (48 + (v - 52)) as u8  // '0'..'9'
    } else if v == 62 {
        45u8  // '-'
    } else {
        95u8  // '_'
    }
}

/// 6-bit value of an ASCII byte, `None` when it is not in the alphabet.
pub open spec fn b64_value_of(b: u8) -> Option<int> {
    if 65 <= b <= 90 {
        Some((b - 65) as int)
    } else if 97 <= b <= 122 {
        Some((b - 97 + 26) as int)
    } else if 48 <= b <= 57 {
        Some((b - 48 + 52) as int)
    } else if b == 45 {
        Some(62int)
    } else if b == 95 {
        Some(63int)
    } else {
        None
    }
}

pub proof fn lemma_b64_value_of_char(v: int)
    requires
        0 <= v < 64,
    ensures
        b64_value_of(b64_char_of(v)) == Some(v),
{
}

/// The canonical base64url encoding of a byte sequence, front to back in
/// groups of three bytes; a trailing group of one or two bytes becomes two
/// or three characters with zero padding bits.
pub open spec fn spec_b64_encode(s: Seq<u8>) -> Seq<u8>
    decreases s.len(),
{
    if s.len() == 0 {
        Seq::empty()
    } else if s.len() == 1 {
        let b0 = s[0] as int;
        seq![b64_char_of(b0 / 4), b64_char_of((b0 % 4) * 16)]
    } else if s.len() == 2 {
        let b0 = s[0] as int;
        let b1 = s[1] as int;
        seq![
            b64_char_of(b0 / 4),
            b64_char_of((b0 % 4) * 16 + b1 / 16),
            b64_char_of((b1 % 16) * 4),
        ]
    } else {
        let b0 = s[0] as int;
        let b1 = s[1] as int;
        let b2 = s[2] as int;
        seq![
            b64_char_of(b0 / 4),
            b64_char_of((b0 % 4) * 16 + b1 / 16),
            b64_char_of((b1 % 16) * 4 + b2 / 64),
            b64_char_of(b2 % 64),
        ] + spec_b64_encode(s.skip(3))
    }
}

/// Strict base64url decoding: `None` on a byte outside the alphabet, on a
/// length of the form 4k+1, and on non-zero trailing bits.
pub open spec fn spec_b64_decode(s: Seq<u8>) -> Option<Seq<u8>>
    decreases s.len(),
{
    if s.len() == 0 {
        Some(Seq::empty())
    } else if s.len() == 1 {
        None
    } else if s.len() == 2 {
        match (b64_value_of(s[0]), b64_value_of(s[1])) {
            (Some(v0), Some(v1)) => if v1 % 16 == 0 {
                Some(seq![(v0 * 4 + v1 / 16) as u8])
            } else {
                None
            },
            _ => None,
        }
    } else if s.len() == 3 {
        match (b64_value_of(s[0]), b64_value_of(s[1]), b64_value_of(s[2])) {
            (Some(v0), Some(v1), Some(v2)) => if v2 % 4 == 0 {
                Some(seq![(v0 * 4 + v1 / 16) as u8, ((v1 % 16) * 16 + v2 / 4) as u8])
            } else {
                None
            },
            _ => None,
        }
    } else {
        match (b64_value_of(s[0]), b64_value_of(s[1]), b64_value_of(s[2]), b64_value_of(s[3])) {
            (Some(v0), Some(v1), Some(v2), Some(v3)) => match spec_b64_decode(s.skip(4)) {
                Some(rest) => Some(
                    seq![
                        (v0 * 4 + v1 / 16) as u8,
                        ((v1 % 16) * 16 + v2 / 4) as u8,
                        ((v2 % 4) * 64 + v3) as u8,
                    ] + rest,
                ),
                None => None,
            },
            _ => None,
        }
    }
}

/// Every character the encoder emits is in the alphabet.
pub proof fn lemma_b64_encode_in_alphabet(s: Seq<u8>)
    ensures
        forall|i: int|
            0 <= i < spec_b64_encode(s).len() ==> b64_value_of(
                #[trigger] spec_b64_encode(s)[i],
            ) is Some,
    decreases s.len(),
{
    if s.len() <= 2 {
    } else {
        lemma_b64_encode_in_alphabet(s.skip(3));
    }
}

/// Encoded text is printable ASCII and contains no dot, quote or backslash.
pub proof fn lemma_b64_encode_text(s: Seq<u8>)
    ensures
        forall|i: int|
            0 <= i < spec_b64_encode(s).len() ==> {
                let b = #[trigger] spec_b64_encode(s)[i];
                0x20 <= b < 0x80 && b != 34 && b != 46 && b != 92
            },
{
    lemma_b64_encode_in_alphabet(s);
    assert forall|i: int| 0 <= i < spec_b64_encode(s).len() implies {
        let b = #[trigger] spec_b64_encode(s)[i];
        0x20 <= b < 0x80 && b != 34 && b != 46 && b != 92
    } by {
        assert(b64_value_of(spec_b64_encode(s)[i]) is Some);
    }
}

/// Decoding is the inverse of encoding: the strict decoder accepts every
/// canonical encoding and returns exactly the bytes that were encoded.
pub proof fn lemma_b64_round_trip(s: Seq<u8>)
    ensures
        spec_b64_decode(spec_b64_encode(s)) == Some(s),
    decreases s.len(),
{
    if s.len() == 0 {
        assert(spec_b64_decode(spec_b64_encode(s)) == Some(s));
    } else if s.len() == 1 {
        let e = spec_b64_encode(s);
        let b0: int = s[0] as int;
        lemma_b64_value_of_char(b0 / 4);
        lemma_b64_value_of_char((b0 % 4) * 16);
        assert(spec_b64_decode(e) == Some(seq![((b0 / 4) * 4 + ((b0 % 4) * 16) / 16) as u8]));
        assert((b0 / 4) * 4 + ((b0 % 4) * 16) / 16 == b0);
        assert(spec_b64_decode(e).unwrap() =~= s);
    } else if s.len() == 2 {
        let e = spec_b64_encode(s);
        let b0: int = s[0] as int;
        let b1: int = s[1] as int;
        lemma_b64_value_of_char(b0 / 4);
        lemma_b64_value_of_char((b0 % 4) * 16 + b1 / 16);
        lemma_b64_value_of_char((b1 % 16) * 4);
        assert(((b1 % 16) * 4) % 4 == 0);
        assert((b0 / 4) * 4 + ((b0 % 4) * 16 + b1 / 16) / 16 == b0);
        assert((((b0 % 4) * 16 + b1 / 16) % 16) * 16 + ((b1 % 16) * 4) / 4 == b1);
        assert(spec_b64_decode(e).unwrap() =~= s);
    } else {
        let e = spec_b64_encode(s);
        let b0: int = s[0] as int;
        let b1: int = s[1] as int;
        let b2: int = s[2] as int;
        let v0: int = b0 / 4;
        let v1: int = (b0 % 4) * 16 + b1 / 16;
        let v2: int = (b1 % 16) * 4 + b2 / 64;
        let v3: int = b2 % 64;
        lemma_b64_value_of_char(v0);
        lemma_b64_value_of_char(v1);
        lemma_b64_value_of_char(v2);
        lemma_b64_value_of_char(v3);
        lemma_b64_round_trip(s.skip(3));
        assert(e.skip(4) =~= spec_b64_encode(s.skip(3)));
        assert(e.len() >= 4);
        assert(v0 * 4 + v1 / 16 == b0);
        assert((v1 % 16) * 16 + v2 / 4 == b1);
        assert((v2 % 4) * 64 + v3 == b2);
        assert(spec_b64_decode(e).unwrap() =~= s);
    }
}

/// ASCII byte of a 6-bit value.
pub fn b64_digit(v: u8) -> (r: u8)
    requires
        v < 64,
    ensures
        r == b64_char_of(v as int),
{
    if v < 26 {
        65 + v
    } else if v < 52 {
        97 + (v - 26)
    } else if v < 62 {
        48 + (v - 52)
    } else if v == 62 {
        45
    } else {
        95
    }
}

/// 6-bit value of an ASCII byte, `None` outside the alphabet.
pub fn b64_digit_value(b: u8) -> (r: Option<u8>)
    ensures
        match r {
            Some(v) => b64_value_of(b) == Some(v as int) && v < 64,
            None => b64_value_of(b) is None,
        },
{
    if 65 <= b && b <= 90 {
        Some(b - 65)
    } else if 97 <= b && b <= 122 {
        Some(b - 97 + 26)
    } else if 48 <= b && b <= 57 {
        Some(b - 48 + 52)
    } else if b == 45 {
        Some(62)
    } else if b == 95 {
        Some(63)
    } else {
        None
    }
}

/// Base64url-encode a byte slice.
pub fn b64_encode(s: &[u8]) -> (r: Vec<u8>)
    ensures
        r@ == spec_b64_encode(s@),
{
    let mut out: Vec<u8> = Vec::new();
    let mut i: usize = 0;
    proof {
        assert(s@.skip(0) =~= s@);
        assert(out@ + spec_b64_encode(s@) =~= spec_b64_encode(s@));
    }
    while s.len() - i >= 3
        invariant
            i <= s@.len(),
            out@ + spec_b64_encode(s@.skip(i as int)) == spec_b64_encode(s@),
        decreases s@.len() - i,
    {
        let b0 = s[i];
        let b1 = s[i + 1];
        let b2 = s[i + 2];
        out.push(b64_digit(b0 / 4));
        out.push(b64_digit(b0 % 4 * 16 + b1 / 16));
        out.push(b64_digit(b1 % 16 * 4 + b2 / 64));
        out.push(b64_digit(b2 % 64));
        proof {
            let t = s@.skip(i as int);
            assert(t[0] == b0 && t[1] == b1 && t[2] == b2);
            assert(t.skip(3) =~= s@.skip(i as int + 3));
            assert(out@ + spec_b64_encode(s@.skip(i as int + 3)) =~= spec_b64_encode(s@));
        }
        i += 3;
    }
    if s.len() - i == 1 {
        let b0 = s[i];
        out.push(b64_digit(b0 / 4));
        out.push(b64_digit(b0 % 4 * 16));
        proof {
            let t = s@.skip(i as int);
            assert(t.len() == 1 && t[0] == b0);
            assert(out@ =~= spec_b64_encode(s@));
        }
    } else if s.len() - i == 2 {
        let b0 = s[i];
        let b1 = s[i + 1];
        out.push(b64_digit(b0 / 4));
        out.push(b64_digit(b0 % 4 * 16 + b1 / 16));
        out.push(b64_digit(b1 % 16 * 4));
        proof {
            let t = s@.skip(i as int);
            assert(t.len() == 2 && t[0] == b0 && t[1] == b1);
            assert(out@ =~= spec_b64_encode(s@));
        }
    } else {
        proof {
            assert(s@.skip(i as int) =~= Seq::<u8>::empty());
            assert(out@ =~= spec_b64_encode(s@));
        }
    }
    out
}

/// Strictly decode a base64url byte slice.
pub fn b64_decode(s: &[u8]) -> (r: Option<Vec<u8>>)
    ensures
        match r {
            Some(v) => spec_b64_decode(s@) == Some(v@),
            None => spec_b64_decode(s@) is None,
        },
{
    let mut out: Vec<u8> = Vec::new();
    let mut i: usize = 0;
    proof {
        assert(s@.skip(0) =~= s@);
        if spec_b64_decode(s@) is Some {
            assert(out@ + spec_b64_decode(s@).unwrap() =~= spec_b64_decode(s@).unwrap());
        }
    }
    while s.len() - i >= 4
        invariant
            i <= s@.len(),
            spec_b64_decode(s@) == match spec_b64_decode(s@.skip(i as int)) {
                Some(rest) => Some(out@ + rest),
                None => None::<Seq<u8>>,
            },
        decreases s@.len() - i,
    {
        let v0 = match b64_digit_value(s[i]) {
            Some(v) => v,
            None => {
                return None;
            },
        };
        let v1 = match b64_digit_value(s[i + 1]) {
            Some(v) => v,
            None => {
                return None;
            },
        };
        let v2 = match b64_digit_value(s[i + 2]) {
            Some(v) => v,
            None => {
                return None;
            },
        };
        let v3 = match b64_digit_value(s[i + 3]) {
            Some(v) => v,
            None => {
                return None;
            },
        };
        out.push(v0 * 4 + v1 / 16);
        out.push(v1 % 16 * 16 + v2 / 4);
        out.push(v2 % 4 * 64 + v3);
        proof {
            let t = s@.skip(i as int);
            assert(t[0] == s@[i as int] && t[1] == s@[i as int + 1] && t[2] == s@[i as int + 2]
                && t[3] == s@[i as int + 3]);
            assert(t.skip(4) =~= s@.skip(i as int + 4));
            assert(spec_b64_decode(s@) == match spec_b64_decode(s@.skip(i as int + 4)) {
                Some(rest) => Some(out@ + rest),
                None => None::<Seq<u8>>,
            });
        }
        i += 4;
    }
    let rem = s.len() - i;
    if rem == 0 {
        proof {
            assert(s@.skip(i as int) =~= Seq::<u8>::empty());
            assert(out@ + Seq::<u8>::empty() =~= out@);
        }
        Some(out)
    } else if rem == 2 {
        let v0 = match b64_digit_value(s[i]) {
            Some(v) => v,
            None => {
                return None;
            },
        };
        let v1 = match b64_digit_value(s[i + 1]) {
            Some(v) => v,
            None => {
                return None;
            },
        };
        if v1 % 16 != 0 {
            return None;
        }
        out.push(v0 * 4 + v1 / 16);
        proof {
            let t = s@.skip(i as int);
            assert(t.len() == 2 && t[0] == s@[i as int] && t[1] == s@[i as int + 1]);
            assert(spec_b64_decode(s@) == Some(out@));
        }
        Some(out)
    } else if rem == 3 {
        let v0 = match b64_digit_value(s[i]) {
            Some(v) => v,
            None => {
                return None;
            },
        };
        let v1 = match b64_digit_value(s[i + 1]) {
            Some(v) => v,
            None => {
                return None;
            },
        };
        let v2 = match b64_digit_value(s[i + 2]) {
            Some(v) => v,
            None => {
                return None;
            },
        };
        if v2 % 4 != 0 {
            return None;
        }
        out.push(v0 * 4 + v1 / 16);
        out.push(v1 % 16 * 16 + v2 / 4);
        proof {
            let t = s@.skip(i as int);
            assert(t.len() == 3 && t[0] == s@[i as int] && t[1] == s@[i as int + 1]
                && t[2] == s@[i as int + 2]);
            assert(spec_b64_decode(s@) == Some(out@));
        }
        Some(out)
    } else {
        // rem == 1: no base64url text has length 4k + 1
        None
    }
}

} // verus!
