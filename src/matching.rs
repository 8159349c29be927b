//! The match predicate: does a fingerprint end with the wanted suffix?
use vstd::prelude::*;
use vstd::string::{is_ascii, is_ascii_spec_bytes, StringSliceAdditionalSpecFns};

verus! {

/// What `str::to_lowercase` makes of a string.
pub uninterp spec fn lower_of(s: Seq<char>) -> Seq<char>;

/// Whether `c` is an ASCII capital letter.
pub open spec fn is_ascii_upper(c: char) -> bool {
    'A' <= c <= 'Z'
}

/// `low` is `s` with each ASCII capital letter replaced by its small letter
/// and every other character kept.
pub open spec fn ascii_lowered(s: Seq<char>, low: Seq<char>) -> bool {
    &&& low.len() == s.len()
    &&& forall|i: int|
        0 <= i < s.len() ==> if is_ascii_upper(#[trigger] s[i]) {
            low[i] as u32 == s[i] as u32 + 32
        } else {
            low[i] == s[i]
        }
}

/// `a` and `b` are the same text up to the case of ASCII letters.
pub open spec fn same_ignoring_ascii_case(a: Seq<char>, b: Seq<char>) -> bool {
    &&& a.len() == b.len()
    &&& forall|i: int|
        0 <= i < a.len() ==> {
            ||| #[trigger] a[i] == b[i]
            ||| is_ascii_upper(a[i]) && b[i] as u32 == a[i] as u32 + 32
            ||| is_ascii_upper(b[i]) && a[i] as u32 == b[i] as u32 + 32
        }
}

/// Relies on `str::to_lowercase`: the lowercase mapping depends on the
/// characters alone, maps the empty string to the empty string, and on
/// ASCII text turns capital letters into small ones and keeps the rest.
#[verifier::external_body]
fn lowercase(s: &str) -> (r: String)
    ensures
        r@ == lower_of(s@),
        s@.len() == 0 ==> r@.len() == 0,
        vstd::utf8::is_ascii_chars(s@) ==> ascii_lowered(s@, r@),
{
    s.to_lowercase()
}

/// The suffix to look for, normalised to lowercase once before a search.
pub fn normalize_suffix(raw: &str) -> (r: String)
    ensures
        r@ == lower_of(raw@),
        raw@.len() == 0 ==> r@.len() == 0,
        vstd::utf8::is_ascii_chars(raw@) ==> ascii_lowered(raw@, r@),
{
    lowercase(raw)
}

/// Whether `fingerprint` ends with `target`, character for character.
pub open spec fn ends_with(fingerprint: Seq<char>, target: Seq<char>) -> bool {
    target.is_suffix_of(fingerprint)
}

proof fn lemma_ascii_byte_eq(a: char, b: char)
    requires
        '\0' <= a <= '\u{7f}',
        '\0' <= b <= '\u{7f}',
        a as u8 == b as u8,
    ensures
        a == b,
{
    assert(a as u32 == b as u32);
}

/// The match predicate. A fingerprint is lowercase hexadecimal text and the
/// target has already been lowercased, so this is plain suffix equality.
pub fn matches(fingerprint: &str, target: &str) -> (r: bool)
    requires
        is_ascii(fingerprint),
    ensures
        r == ends_with(fingerprint@, target@),
{
    broadcast use is_ascii_spec_bytes;

    if !target.is_ascii() {
        proof {
            if ends_with(fingerprint@, target@) {
                let off = fingerprint@.len() - target@.len();
                assert forall|j: int| 0 <= j < target@.len() implies '\0' <= #[trigger] target@[j]
                    <= '\u{7f}' by {
                    assert(target@[j] == fingerprint@.subrange(off, fingerprint@.len() as int)[j]);
                    assert(target@[j] == fingerprint@[off + j]);
                }
            }
        }
        return false;
    }
    let fb = fingerprint.as_bytes();
    let tb = target.as_bytes();
    let fl = fb.len();
    let tl = tb.len();
    assert(fb@.len() == fingerprint@.len());
    assert(tb@.len() == target@.len());
    if tl > fl {
        return false;
    }
    let off = fl - tl;
    let mut i: usize = 0;
    while i < tl
        invariant
            off + tl == fl,
            fb@ == fingerprint.spec_bytes(),
            tb@ == target.spec_bytes(),
            fb@.len() == fl,
            tb@.len() == tl,
            fingerprint@.len() == fl,
            target@.len() == tl,
            is_ascii(fingerprint),
            is_ascii(target),
            i <= tl,
            forall|j: int| 0 <= j < i ==> target@[j] == fingerprint@[off + j],
        decreases tl - i,
    {
        assert(tb@[i as int] == target@[i as int] as u8);
        assert(fb@[off + i] == fingerprint@[off + i] as u8);
        if tb[i] != fb[off + i] {
            proof {
                let k = (off + i) as int;
                assert(fingerprint@.subrange(off as int, fl as int)[i as int] == fingerprint@[k]);
            }
            return false;
        }
        proof {
            lemma_ascii_byte_eq(target@[i as int], fingerprint@[off + i]);
        }
        i += 1;
    }
    assert(target@ =~= fingerprint@.subrange(off as int, fl as int));
    true
}

proof fn lemma_char_eq(a: char, b: char)
    requires
        a as u32 == b as u32,
    ensures
        a == b,
{
}

/// Suffixes that differ only in the case of ASCII letters ("AB" and "ab")
/// normalise to the same text, so they match the same fingerprints.
pub proof fn lemma_suffix_case_blind(a: Seq<char>, b: Seq<char>, low_a: Seq<char>, low_b: Seq<char>)
    requires
        same_ignoring_ascii_case(a, b),
        ascii_lowered(a, low_a),
        ascii_lowered(b, low_b),
    ensures
        low_a == low_b,
        forall|fingerprint: Seq<char>|
            ends_with(fingerprint, low_a) == #[trigger] ends_with(fingerprint, low_b),
{
    assert forall|i: int| 0 <= i < a.len() implies low_a[i] == low_b[i] by {
        let x = a[i];
        let y = b[i];
        if is_ascii_upper(x) {
            assert(low_a[i] as u32 == x as u32 + 32);
        } else {
            assert(low_a[i] == x);
        }
        if is_ascii_upper(y) {
            assert(low_b[i] as u32 == y as u32 + 32);
        } else {
            assert(low_b[i] == y);
        }
        assert(low_a[i] as u32 == low_b[i] as u32);
        lemma_char_eq(low_a[i], low_b[i]);
    }
    assert(low_a =~= low_b);
}

/// Edge cases of the match predicate: the empty target matches every
/// fingerprint, and a target longer than the fingerprint matches none.
pub proof fn lemma_match_edges(fingerprint: Seq<char>, target: Seq<char>)
    ensures
        target.len() == 0 ==> ends_with(fingerprint, target),
        target.len() > fingerprint.len() ==> !ends_with(fingerprint, target),
{
    if target.len() == 0 {
        assert(target =~= fingerprint.subrange(fingerprint.len() as int, fingerprint.len() as int));
    }
}

} // verus!
