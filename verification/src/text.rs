//! Character-level string helpers shared by the title checks.

use vstd::prelude::*;
use vstd::utf8::{valid_utf8, decode_utf8};

verus! {

/// `needle` occurs in `hay` as a contiguous run of characters.
pub open spec fn is_substring(hay: Seq<char>, needle: Seq<char>) -> bool {
    exists|i: int|
        0 <= i && i + needle.len() <= hay.len() && #[trigger] hay.subrange(i, i + needle.len())
            == needle
}

/// The characters of `s`, in order.
pub fn chars_of(s: &str) -> (v: Vec<char>)
    ensures
        v@ == s@,
{
    let mut v: Vec<char> = Vec::new();
    for c in it: s.chars()
        invariant
            v@ == it.seq().take(it.index() as int),
    {
        v.push(c);
    }
    assert(v@ =~= s@);
    v
}

/// The characters of `a` equal those of `b` starting at position `at`.
fn matches_at(a: &Vec<char>, b: &Vec<char>, at: usize) -> (r: bool)
    requires
        at + b@.len() <= a@.len(),
    ensures
        r == (a@.subrange(at as int, at + b@.len()) == b@),
{
    let len_a = a.len();
    let mut j: usize = 0;
    while j < b.len()
        invariant
            len_a == a@.len(),
            at + b@.len() <= a@.len(),
            j <= b@.len(),
            forall|k: int| 0 <= k < j ==> a@[at + k] == b@[k],
        decreases b@.len() - j,
    {
        if a[at + j] != b[j] {
            assert(a@.subrange(at as int, at + b@.len())[j as int] != b@[j as int]);
            return false;
        }
        j = j + 1;
    }
    assert(a@.subrange(at as int, at + b@.len()) =~= b@);
    true
}

/// Whether `needle` occurs in `hay`; the check `str::contains` makes with a
/// string pattern.
pub fn contains(hay: &str, needle: &str) -> (r: bool)
    ensures
        r == is_substring(hay@, needle@),
{
    let h = chars_of(hay);
    let n = chars_of(needle);
    if n.len() > h.len() {
        return false;
    }
    let last: usize = h.len() - n.len();
    let mut i: usize = 0;
    loop
        invariant
            h@ == hay@,
            n@ == needle@,
            i <= last,
            last + n@.len() == h@.len(),
            forall|k: int| 0 <= k < i ==> #[trigger] h@.subrange(k, k + n@.len()) != n@,
        decreases last - i,
    {
        if matches_at(&h, &n, i) {
            return true;
        }
        if i == last {
            assert forall|k: int| 0 <= k && k + n@.len() <= h@.len() implies #[trigger] h@.subrange(
                k,
                k + n@.len(),
            ) != n@ by {
                if k == i as int {
                } else {
                    assert(k < i);
                }
            }
            return false;
        }
        i = i + 1;
    }
}

/// Whether `a` and `b` hold the same characters.
pub fn same_text(a: &str, b: &str) -> (r: bool)
    ensures
        r == (a@ == b@),
{
    let x = chars_of(a);
    let y = chars_of(b);
    if x.len() != y.len() {
        return false;
    }
    let r = matches_at(&x, &y, 0);
    assert(x@.subrange(0, y@.len() as int) =~= x@);
    r
}

/// `u` is the first half of a UTF-16 surrogate pair.
pub open spec fn is_high_surrogate(u: u16) -> bool {
    0xD800 <= u <= 0xDBFF
}

/// `u` is the second half of a UTF-16 surrogate pair.
pub open spec fn is_low_surrogate(u: u16) -> bool {
    0xDC00 <= u <= 0xDFFF
}

/// The character that a surrogate pair encodes.
pub open spec fn pair_char(high: u16, low: u16) -> char {
    (0x10000 + (high - 0xD800) * 0x400 + (low - 0xDC00)) as char
}

/// The characters of the lossy UTF-16 decoding of `units`: a high
/// surrogate followed by a low one gives the character of the pair, any
/// other surrogate gives U+FFFD (the unit after an unpaired high surrogate
/// is decoded on its own), and every other unit is its own character.
pub open spec fn utf16_lossy_chars(units: Seq<u16>) -> Seq<char>
    decreases units.len(),
{
    if units.len() == 0 {
        Seq::empty()
    } else if units.len() >= 2 && is_high_surrogate(units[0]) && is_low_surrogate(units[1]) {
        seq![pair_char(units[0], units[1])] + utf16_lossy_chars(units.skip(2))
    } else if is_high_surrogate(units[0]) || is_low_surrogate(units[0]) {
        seq!['\u{FFFD}'] + utf16_lossy_chars(units.skip(1))
    } else {
        seq![units[0] as char] + utf16_lossy_chars(units.skip(1))
    }
}

/// Decoding some units gives some characters: at least one for every two
/// units, and never more characters than units.
pub proof fn lemma_utf16_lossy_length(units: Seq<u16>)
    ensures
        units.len() <= 2 * utf16_lossy_chars(units).len(),
        utf16_lossy_chars(units).len() <= units.len(),
    decreases units.len(),
{
    if units.len() >= 2 && is_high_surrogate(units[0]) && is_low_surrogate(units[1]) {
        lemma_utf16_lossy_length(units.skip(2));
    } else if units.len() > 0 {
        lemma_utf16_lossy_length(units.skip(1));
    }
}

/// Calls `String::from_utf8`. Its documentation says that it fails exactly
/// when the bytes are not valid UTF-8 and otherwise holds the text they
/// encode; the contract says that, over vstd's UTF-8 definitions, and drops
/// the error value.
#[verifier::external_body]
pub(crate) fn string_from_utf8(bytes: Vec<u8>) -> (r: Option<String>)
    ensures
        r is Some <==> valid_utf8(bytes@),
        r matches Some(s) ==> s@ == decode_utf8(bytes@),
{
    String::from_utf8(bytes).ok()
}

/// The characters that `String::from_utf8_lossy` makes of `bytes`: the
/// UTF-8 decoding, with U+FFFD in place of each invalid sequence.
pub uninterp spec fn utf8_lossy_chars(bytes: Seq<u8>) -> Seq<char>;

/// Calls `String::from_utf8_lossy` and takes the text as an owned string.
/// The contract names the result and adds what the documentation says of
/// valid input: it is decoded unchanged.
#[verifier::external_body]
pub(crate) fn string_from_utf8_lossy(bytes: &[u8]) -> (s: String)
    ensures
        s@ == utf8_lossy_chars(bytes@),
        valid_utf8(bytes@) ==> s@ == decode_utf8(bytes@),
{
    String::from_utf8_lossy(bytes).into_owned()
}

/// Calls `String::from_utf16_lossy`, which its documentation describes as
/// the UTF-16 decoding with U+FFFD in place of invalid data; the contract
/// spells that decoding out.
#[verifier::external_body]
fn string_from_utf16_lossy(units: &[u16]) -> (s: String)
    ensures
        s@ == utf16_lossy_chars(units@),
{
    String::from_utf16_lossy(units)
}

/// The text in the first `len` UTF-16 units of `buf`, decoded lossily; none
/// when `len` is not positive, as for a window without a title.
pub fn text_from_utf16_prefix(buf: &[u16], len: i32) -> (r: Option<String>)
    requires
        len <= buf@.len(),
    ensures
        r is Some <==> len > 0,
        r matches Some(s) ==> s@ == utf16_lossy_chars(buf@.take(len as int)),
{
    if len <= 0 {
        return None;
    }
    let n = len as usize;
    let mut units: Vec<u16> = Vec::new();
    let mut i: usize = 0;
    while i < n
        invariant
            n == len,
            n <= buf@.len(),
            i <= n,
            units@ == buf@.take(i as int),
        decreases n - i,
    {
        units.push(buf[i]);
        assert(buf@.take(i + 1) =~= buf@.take(i as int).push(buf@[i as int]));
        i = i + 1;
    }
    Some(string_from_utf16_lossy(units.as_slice()))
}

/// A text contains whatever stands in it between a prefix and a suffix,
/// and a contained text is never longer than the text holding it.
pub proof fn lemma_substring_exactly(a: Seq<char>, b: Seq<char>, c: Seq<char>, hay: Seq<char>, needle: Seq<char>)
    ensures
        is_substring(a + b + c, b),
        is_substring(hay, needle) ==> needle.len() <= hay.len(),
        needle.len() == 0 ==> is_substring(hay, needle),
        hay.len() == needle.len() ==> (is_substring(hay, needle) <==> hay == needle),
{
    assert((a + b + c).subrange(a.len() as int, a.len() as int + b.len()) =~= b);
    if needle.len() == 0 {
        assert(hay.subrange(0int, 0int + needle.len()) =~= needle);
    }
    if hay.len() == needle.len() {
        assert(hay.subrange(0int, 0int + needle.len()) =~= hay);
    }
}

/// Units that hold no surrogate decode one character per unit, each the
/// character with that unit's code.
pub proof fn lemma_utf16_without_surrogates(units: Seq<u16>)
    requires
        forall|i: int| 0 <= i < units.len() ==> !(0xD800 <= #[trigger] units[i] <= 0xDFFF),
    ensures
        utf16_lossy_chars(units).len() == units.len(),
        forall|i: int| 0 <= i < units.len() ==> utf16_lossy_chars(units)[i] == (#[trigger] units[i]) as char,
    decreases units.len(),
{
    if units.len() > 0 {
        let rest = units.skip(1);
        assert forall|i: int| 0 <= i < rest.len() implies !(0xD800 <= #[trigger] rest[i] <= 0xDFFF) by {
            assert(rest[i] == units[i + 1]);
        }
        lemma_utf16_without_surrogates(rest);
        assert(!(0xD800 <= units[0] <= 0xDFFF));
        assert forall|i: int| 0 <= i < units.len() implies utf16_lossy_chars(units)[i] == (#[trigger] units[i]) as char by {
            if i > 0 {
                assert(rest[i - 1] == units[i]);
            }
        }
    }
}

/// A high surrogate followed by a low one decodes to the one character
/// 0x10000 + (high - 0xD800) * 0x400 + (low - 0xDC00); a surrogate that
/// starts the units without its partner decodes to U+FFFD.
pub proof fn lemma_utf16_surrogates(high: u16, low: u16, rest: Seq<u16>)
    requires
        0xD800 <= high <= 0xDBFF,
        0xDC00 <= low <= 0xDFFF,
    ensures
        utf16_lossy_chars(seq![high, low] + rest)[0] == (0x10000 + (high - 0xD800) * 0x400 + (low
            - 0xDC00)) as char,
        utf16_lossy_chars(seq![high, low] + rest) == seq![utf16_lossy_chars(seq![high, low] + rest)[0]]
            + utf16_lossy_chars(rest),
        utf16_lossy_chars(seq![high]) == seq!['\u{FFFD}'],
        utf16_lossy_chars(seq![low] + rest) == seq!['\u{FFFD}'] + utf16_lossy_chars(rest),
{
    let u = seq![high, low] + rest;
    assert(u[0] == high && u[1] == low);
    assert(u.skip(2) =~= rest);
    let v = seq![low] + rest;
    assert(v[0] == low);
    assert(v.skip(1) =~= rest);
    let h = seq![high];
    assert(h.skip(1) =~= Seq::<u16>::empty());
    assert(utf16_lossy_chars(Seq::<u16>::empty()) =~= Seq::<char>::empty());
    assert(utf16_lossy_chars(h) == seq!['\u{FFFD}'] + utf16_lossy_chars(h.skip(1)));
    assert(seq!['\u{FFFD}'] + Seq::<char>::empty() =~= seq!['\u{FFFD}']);
}

} // verus!
