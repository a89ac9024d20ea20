//! ASCII text utilities: the well-formedness condition on credential
//! subjects, the bridge between character and byte views of ASCII strings,
//! and the one conversion from verified bytes back to `String`.

use vstd::prelude::*;

verus! {

/// The bytes of an ASCII character sequence, one byte per character.
pub open spec fn ascii_bytes_of(s: Seq<char>) -> Seq<u8> {
    s.map_values(|c: char| c as u8)
}

/// The characters denoted by a sequence of ASCII bytes.
pub open spec fn chars_of_bytes(b: Seq<u8>) -> Seq<char> {
    b.map_values(|x: u8| x as char)
}

/// A byte that may appear in a subject identifier: printable ASCII with the
/// two JSON string metacharacters (quote and backslash) excluded, so a
/// subject embeds in the claims payload without escaping.
pub open spec fn byte_is_subject(b: u8) -> bool {
    0x20 <= b <= 0x7e && b != 34 && b != 92
}

pub open spec fn subject_wf_bytes(s: Seq<u8>) -> bool {
    forall|i: int| 0 <= i < s.len() ==> byte_is_subject(#[trigger] s[i])
}

/// The same condition on a subject as a character string.
pub open spec fn char_is_subject(c: char) -> bool {
    ' ' <= c <= '~' && c != '"' && c != '\\'
}

pub open spec fn subject_wf(s: Seq<char>) -> bool {
    forall|i: int| 0 <= i < s.len() ==> char_is_subject(#[trigger] s[i])
}

/// On ASCII characters the byte and character conditions agree, and the
/// byte round-trips through `char`.
pub proof fn lemma_subject_char_byte(c: char)
    requires
        c <= '\u{7f}',
    ensures
        byte_is_subject(c as u8) == char_is_subject(c),
        (c as u8) as char == c,
{
}

/// A well-formed subject string is ASCII, its byte view satisfies the byte
/// condition, and the byte view converts back to the same characters.
pub proof fn lemma_subject_wf_bytes(s: Seq<char>)
    requires
        subject_wf(s),
    ensures
        vstd::utf8::is_ascii_chars(s),
        subject_wf_bytes(ascii_bytes_of(s)),
        chars_of_bytes(ascii_bytes_of(s)) == s,
{
    assert forall|i: int| 0 <= i < s.len() implies '\0' <= #[trigger] s[i] <= '\u{7f}' by {
        assert(char_is_subject(s[i]));
    }
    assert forall|i: int| 0 <= i < ascii_bytes_of(s).len() implies byte_is_subject(
        #[trigger] ascii_bytes_of(s)[i],
    ) by {
        assert(char_is_subject(s[i]));
        lemma_subject_char_byte(s[i]);
    }
    assert forall|i: int| 0 <= i < s.len() implies chars_of_bytes(ascii_bytes_of(s))[i] == s[i] by {
        lemma_subject_char_byte(s[i]);
    }
    assert(chars_of_bytes(ascii_bytes_of(s)) =~= s);
}

/// Well-formed subject bytes denote a well-formed subject string whose byte
/// view is the original bytes.
pub proof fn lemma_subject_bytes_wf(b: Seq<u8>)
    requires
        subject_wf_bytes(b),
    ensures
        subject_wf(chars_of_bytes(b)),
        ascii_bytes_of(chars_of_bytes(b)) == b,
{
    assert forall|i: int| 0 <= i < b.len() implies char_is_subject(
        #[trigger] chars_of_bytes(b)[i],
    ) by {
        assert(byte_is_subject(b[i]));
        assert(chars_of_bytes(b)[i] == b[i] as char);
    }
    assert(ascii_bytes_of(chars_of_bytes(b)) =~= b);
}

/// ASCII bytes survive the round trip through characters, and the resulting
/// characters UTF-8-encode back to the same bytes.
pub proof fn lemma_ascii_bytes_roundtrip(b: Seq<u8>)
    requires
        forall|i: int| 0 <= i < b.len() ==> #[trigger] b[i] < 0x80,
    ensures
        vstd::utf8::is_ascii_chars(chars_of_bytes(b)),
        ascii_bytes_of(chars_of_bytes(b)) == b,
        vstd::utf8::encode_utf8(chars_of_bytes(b)) == b,
{
    let cs = chars_of_bytes(b);
    assert forall|i: int| 0 <= i < cs.len() implies '\0' <= #[trigger] cs[i] <= '\u{7f}' by {
        assert(b[i] < 0x80);
        assert(cs[i] == b[i] as char);
    }
    assert forall|i: int| 0 <= i < b.len() implies ascii_bytes_of(cs)[i] == b[i] by {
        assert(cs[i] == b[i] as char);
    }
    assert(ascii_bytes_of(cs) =~= b);
    vstd::utf8::is_ascii_chars_encode_utf8(cs);
    assert(vstd::utf8::encode_utf8(cs) =~= b);
}

/// Relies on `String::from_utf8`: a buffer of ASCII bytes is valid UTF-8 and
/// decodes to exactly those code points, one character per byte.
#[verifier::external_body]
pub fn ascii_to_string(v: Vec<u8>) -> (r: String)
    requires
        forall|i: int| 0 <= i < v@.len() ==> #[trigger] v@[i] < 0x80,
    ensures
        r@ == chars_of_bytes(v@),
{
    String::from_utf8(v).unwrap()
}

/// Does the string satisfy the subject condition?
pub fn check_subject(s: &str) -> (r: bool)
    ensures
        r == subject_wf(s@),
{
    if !s.is_ascii() {
        proof {
            let i = choose|i: int|
                0 <= i < s@.len() && !('\0' <= #[trigger] s@[i] <= '\u{7f}');
            assert(!char_is_subject(s@[i]));
        }
        return false;
    }
    proof {
        broadcast use vstd::string::is_ascii_spec_bytes;

    }
    let b = s.as_bytes();
    let ghost bytes = Seq::new(s@.len(), |i: int| s@.index(i) as u8);
    proof {
        assert(b@ =~= bytes);
    }
    let mut k: usize = 0;
    let n = b.len();
    while k < n
        invariant
            k <= n,
            n == b@.len(),
            b@ == bytes,
            bytes == Seq::new(s@.len(), |i: int| s@.index(i) as u8),
            vstd::utf8::is_ascii_chars(s@),
            forall|j: int| 0 <= j < k ==> char_is_subject(#[trigger] s@[j]),
        decreases n - k,
    {
        let c = b[k];
        if c < 0x20 || c > 0x7e || c == 34 || c == 92 {
            proof {
                lemma_subject_char_byte(s@[k as int]);
            }
            return false;
        }
        proof {
            lemma_subject_char_byte(s@[k as int]);
        }
        k += 1;
    }
    true
}

} // verus!
