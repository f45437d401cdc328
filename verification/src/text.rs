//! Character-level string primitives with exact specifications.
//!
//! Strings are specified by their character sequence (`s@`); byte lengths are the
//! length of the UTF-8 encoding of that sequence, which is what `str::len` reports.

use vstd::prelude::*;
use vstd::utf8::encode_utf8;
use vstd::string::StrSliceExecFns;

verus! {

// ---------------------------------------------------------------------------
// Unicode character properties (std's tables)
// ---------------------------------------------------------------------------

/// What `char::is_whitespace` answers: the Unicode `White_Space` property,
/// which holds of tab, line feed, vertical tab, form feed, carriage return and
/// space in ASCII, and of U+0085, U+00A0, U+1680, U+2000 to U+200A, U+2028,
/// U+2029, U+202F, U+205F and U+3000 beyond it.
pub open spec fn unicode_whitespace(c: char) -> bool {
    let n = c as int;
    (9 <= n <= 13) || n == 32 || n == 0x85 || n == 0xA0 || n == 0x1680 || (0x2000 <= n <= 0x200A)
        || n == 0x2028 || n == 0x2029 || n == 0x202F || n == 0x205F || n == 0x3000
}

/// What `char::is_uppercase` answers beyond ASCII (the Unicode `Uppercase`
/// property).
pub uninterp spec fn non_ascii_uppercase(c: char) -> bool;

/// What `char::is_uppercase` answers: `A` to `Z` in ASCII.
pub open spec fn unicode_uppercase(c: char) -> bool {
    if (c as int) < 128 {
        'A' <= c && c <= 'Z'
    } else {
        non_ascii_uppercase(c)
    }
}

/// What `char::is_lowercase` answers beyond ASCII (the Unicode `Lowercase`
/// property).
pub uninterp spec fn non_ascii_lowercase(c: char) -> bool;

/// What `char::is_lowercase` answers: `a` to `z` in ASCII.
pub open spec fn unicode_lowercase(c: char) -> bool {
    if (c as int) < 128 {
        'a' <= c && c <= 'z'
    } else {
        non_ascii_lowercase(c)
    }
}

/// What `char::is_alphanumeric` answers beyond ASCII (alphabetic or numeric
/// in Unicode).
pub uninterp spec fn non_ascii_alphanumeric(c: char) -> bool;

/// What `char::is_alphanumeric` answers: letters and digits in ASCII.
pub open spec fn unicode_alphanumeric(c: char) -> bool {
    if (c as int) < 128 {
        ('a' <= c && c <= 'z') || ('A' <= c && c <= 'Z') || ('0' <= c && c <= '9')
    } else {
        non_ascii_alphanumeric(c)
    }
}

/// What `char::is_numeric` answers beyond ASCII (a Unicode number general
/// category).
pub uninterp spec fn non_ascii_numeric(c: char) -> bool;

/// What `char::is_numeric` answers: the digits in ASCII.
pub open spec fn unicode_numeric(c: char) -> bool {
    if (c as int) < 128 {
        '0' <= c && c <= '9'
    } else {
        non_ascii_numeric(c)
    }
}

/// What `str::to_lowercase` returns for a string that is not all ASCII (the
/// full Unicode lowercase mapping).
pub uninterp spec fn non_ascii_to_lowercase(s: Seq<char>) -> Seq<char>;

/// What `str::to_lowercase` returns: an ASCII string with its capitals made
/// small, character by character.
pub open spec fn unicode_to_lowercase(s: Seq<char>) -> Seq<char> {
    if all_ascii(s) {
        s.map_values(|c: char| ascii_lower(c))
    } else {
        non_ascii_to_lowercase(s)
    }
}

/// Calls `char::is_whitespace`, whose answer `unicode_whitespace` writes out.
#[verifier::external_body]
fn char_is_whitespace(c: char) -> (r: bool)
    ensures
        r == unicode_whitespace(c),
{
    c.is_whitespace()
}

/// Calls `char::is_uppercase`: `unicode_uppercase` gives the answer, written out for
/// ASCII and named by `non_ascii_uppercase` beyond.
#[verifier::external_body]
pub(crate) fn char_is_uppercase(c: char) -> (r: bool)
    ensures
        r == unicode_uppercase(c),
        (c as int) >= 128 ==> r == non_ascii_uppercase(c),
{
    c.is_uppercase()
}

/// Calls `char::is_lowercase`: `unicode_lowercase` gives the answer, written out for
/// ASCII and named by `non_ascii_lowercase` beyond.
#[verifier::external_body]
pub(crate) fn char_is_lowercase(c: char) -> (r: bool)
    ensures
        r == unicode_lowercase(c),
        (c as int) >= 128 ==> r == non_ascii_lowercase(c),
{
    c.is_lowercase()
}

/// Calls `char::is_alphanumeric`: `unicode_alphanumeric` gives the answer, written out for
/// ASCII and named by `non_ascii_alphanumeric` beyond.
#[verifier::external_body]
pub(crate) fn char_is_alphanumeric(c: char) -> (r: bool)
    ensures
        r == unicode_alphanumeric(c),
        (c as int) >= 128 ==> r == non_ascii_alphanumeric(c),
{
    c.is_alphanumeric()
}

/// Calls `char::is_numeric`: `unicode_numeric` gives the answer, written out for
/// ASCII and named by `non_ascii_numeric` beyond.
#[verifier::external_body]
pub(crate) fn char_is_numeric(c: char) -> (r: bool)
    ensures
        r == unicode_numeric(c),
        (c as int) >= 128 ==> r == non_ascii_numeric(c),
{
    c.is_numeric()
}

/// Calls `str::to_lowercase`: `unicode_to_lowercase` gives the result,
/// written out for ASCII text and named by `non_ascii_to_lowercase` otherwise.
#[verifier::external_body]
pub(crate) fn str_to_lowercase(s: &str) -> (r: String)
    ensures
        r@ == unicode_to_lowercase(s@),
        !all_ascii(s@) ==> r@ == non_ascii_to_lowercase(s@),
{
    s.to_lowercase()
}

/// Calls `String::push`, which appends one character.
#[verifier::external_body]
pub(crate) fn push_char(s: &mut String, c: char)
    ensures
        final(s)@ == old(s)@.push(c),
{
    s.push(c)
}

// ---------------------------------------------------------------------------
// Specifications
// ---------------------------------------------------------------------------

/// Number of bytes in the UTF-8 encoding of `s` (what `str::len` returns).
pub open spec fn byte_len(s: Seq<char>) -> nat {
    encode_utf8(s).len()
}

/// `c` with an ASCII upper-case letter turned into lower case.
pub open spec fn ascii_lower(c: char) -> char {
    if 65 <= (c as int) <= 90 {
        ((c as int) + 32) as char
    } else {
        c
    }
}

/// Whether every character of `s` is ASCII.
pub open spec fn all_ascii(s: Seq<char>) -> bool {
    forall|i: int| 0 <= i < s.len() ==> (#[trigger] s[i] as int) < 128
}

/// Whether `c` is an ASCII decimal digit.
pub open spec fn spec_is_ascii_digit(c: char) -> bool {
    '0' <= c && c <= '9'
}

/// Whether `c` is an ASCII lowercase letter.
pub open spec fn spec_is_ascii_lowercase(c: char) -> bool {
    'a' <= c && c <= 'z'
}

/// Number of leading characters of `s` that are whitespace.
pub open spec fn leading_ws(s: Seq<char>) -> nat
    decreases s.len(),
{
    if s.len() > 0 && unicode_whitespace(s[0]) {
        1 + leading_ws(s.drop_first())
    } else {
        0
    }
}

/// Number of trailing characters of `s` that are whitespace.
pub open spec fn trailing_ws(s: Seq<char>) -> nat
    decreases s.len(),
{
    if s.len() > 0 && unicode_whitespace(s.last()) {
        1 + trailing_ws(s.drop_last())
    } else {
        0
    }
}

/// `s` without its leading and trailing whitespace (what `str::trim` returns).
pub open spec fn trim_spec(s: Seq<char>) -> Seq<char> {
    let t = s.skip(leading_ws(s) as int);
    t.take(t.len() - trailing_ws(t))
}

/// Text that neither begins nor ends with whitespace is its own trim.
pub proof fn lemma_trim_unpadded(s: Seq<char>)
    requires
        s.len() > 0 ==> !unicode_whitespace(s[0]) && !unicode_whitespace(s.last()),
    ensures
        trim_spec(s) == s,
{
    assert(leading_ws(s) == 0);
    assert(s.skip(0) =~= s);
    assert(trailing_ws(s) == 0);
    assert(s.take(s.len() as int) =~= s);
}

/// Whether `s` has `p` as a prefix.
pub open spec fn has_prefix(s: Seq<char>, p: Seq<char>) -> bool {
    p.len() <= s.len() && s.take(p.len() as int) == p
}

/// Whether `s` has `p` as a suffix.
pub open spec fn has_suffix(s: Seq<char>, p: Seq<char>) -> bool {
    p.len() <= s.len() && s.skip(s.len() - p.len()) == p
}

/// Whether `p` occurs in `s` starting at position `i`.
pub open spec fn occurs_at(s: Seq<char>, p: Seq<char>, i: int) -> bool {
    0 <= i && i + p.len() <= s.len() && s.subrange(i, i + p.len()) == p
}

/// Whether `p` occurs in `s` as a contiguous block.
pub open spec fn has_substring(s: Seq<char>, p: Seq<char>) -> bool {
    exists|i: int| occurs_at(s, p, i)
}

/// `s` with every non-overlapping occurrence of `pat`, scanned from the left,
/// replaced by `rep` (what `str::replace` returns for a non-empty `pat`).
pub open spec fn replace_all(s: Seq<char>, pat: Seq<char>, rep: Seq<char>) -> Seq<char>
    decreases s.len(),
{
    if s.len() == 0 {
        seq![]
    } else if pat.len() > 0 && has_prefix(s, pat) {
        rep + replace_all(s.skip(pat.len() as int), pat, rep)
    } else {
        seq![s[0]] + replace_all(s.skip(1), pat, rep)
    }
}

// ---------------------------------------------------------------------------
// Lemmas
// ---------------------------------------------------------------------------

/// A string has a non-empty encoding exactly when it has a character; every
/// character takes at least one byte.
pub proof fn lemma_byte_len(s: Seq<char>)
    ensures
        byte_len(s) >= s.len(),
        byte_len(s) == 0 <==> s.len() == 0,
    decreases s.len(),
{
    if s.len() > 0 {
        lemma_byte_len(s.drop_first());
        vstd::utf8::encode_utf8_first_scalar(s);
    }
}

/// The UTF-8 length of a concatenation is the sum of the lengths.
pub proof fn lemma_byte_len_concat(a: Seq<char>, b: Seq<char>)
    ensures
        byte_len(a + b) == byte_len(a) + byte_len(b),
    decreases a.len(),
{
    if a.len() > 0 {
        lemma_byte_len_concat(a.drop_first(), b);
        assert((a + b).drop_first() =~= a.drop_first() + b);
        assert((a + b)[0] == a[0]);
    } else {
        assert(a + b =~= b);
    }
}

/// Leading whitespace count is the first non-whitespace position.
proof fn lemma_leading_ws_char(s: Seq<char>, i: int)
    requires
        0 <= i <= s.len(),
        forall|k: int| 0 <= k < i ==> unicode_whitespace(#[trigger] s[k]),
        i == s.len() || !unicode_whitespace(s[i]),
    ensures
        leading_ws(s) == i,
    decreases s.len(),
{
    if i > 0 {
        assert(unicode_whitespace(s[0]));
        let t = s.drop_first();
        assert forall|k: int| 0 <= k < i - 1 implies unicode_whitespace(#[trigger] t[k]) by {
            assert(t[k] == s[k + 1]);
        }
        if i < s.len() {
            assert(t[i - 1] == s[i]);
        }
        lemma_leading_ws_char(t, i - 1);
    }
}

/// Trailing whitespace count is the distance to the last non-whitespace position.
proof fn lemma_trailing_ws_char(s: Seq<char>, j: int)
    requires
        0 <= j <= s.len(),
        forall|k: int| j <= k < s.len() ==> unicode_whitespace(#[trigger] s[k]),
        j == 0 || !unicode_whitespace(s[j - 1]),
    ensures
        trailing_ws(s) == s.len() - j,
    decreases s.len(),
{
    if j < s.len() {
        assert(unicode_whitespace(s.last()));
        let t = s.drop_last();
        assert forall|k: int| j <= k < t.len() implies unicode_whitespace(#[trigger] t[k]) by {
            assert(t[k] == s[k]);
        }
        if j > 0 {
            assert(t[j - 1] == s[j - 1]);
        }
        lemma_trailing_ws_char(t, j);
    }
}

/// Unfolding `replace_all` at a position of the scanned sequence.
proof fn lemma_replace_step(s: Seq<char>, pat: Seq<char>, rep: Seq<char>, i: int)
    requires
        0 <= i < s.len(),
        pat.len() > 0,
    ensures
        occurs_at(s, pat, i) ==> replace_all(s.skip(i), pat, rep) == rep + replace_all(
            s.skip(i + pat.len()),
            pat,
            rep,
        ),
        !occurs_at(s, pat, i) ==> replace_all(s.skip(i), pat, rep) == seq![s[i]] + replace_all(
            s.skip(i + 1),
            pat,
            rep,
        ),
{
    let t = s.skip(i);
    if occurs_at(s, pat, i) {
        assert(t.take(pat.len() as int) =~= s.subrange(i, i + pat.len()));
        assert(t.skip(pat.len() as int) =~= s.skip(i + pat.len()));
    } else {
        if pat.len() <= t.len() {
            assert(t.take(pat.len() as int) =~= s.subrange(i, i + pat.len()));
        }
        assert(t.skip(1) =~= s.skip(i + 1));
    }
}

// ---------------------------------------------------------------------------
// Executable primitives
// ---------------------------------------------------------------------------

/// Copies the characters of `s` into a vector.
pub fn chars_of(s: &str) -> (v: Vec<char>)
    ensures
        v@ == s@,
{
    let mut v: Vec<char> = Vec::new();
    for c in it: s.chars()
        invariant
            v@ == it.seq().take(it.index() as int),
            it.seq() == s@,
    {
        v.push(c);
    }
    v
}

/// Builds a `String` holding exactly the characters of `v`.
pub fn string_from_chars(v: &Vec<char>) -> (s: String)
    ensures
        s@ == v@,
{
    let mut s = String::new();
    let mut i: usize = 0;
    while i < v.len()
        invariant
            i <= v.len(),
            s@ == v@.take(i as int),
        decreases v.len() - i,
    {
        push_char(&mut s, v[i]);
        assert(v@.take(i as int + 1) =~= v@.take(i as int).push(v@[i as int]));
        i = i + 1;
    }
    assert(v@.take(v.len() as int) =~= v@);
    s
}

/// Number of bytes in the UTF-8 encoding of `s`.
pub fn byte_length(s: &str) -> (n: usize)
    ensures
        n == byte_len(s@),
{
    s.as_bytes().len()
}

/// Whether `c` is an ASCII decimal digit.
pub fn is_ascii_digit(c: char) -> (r: bool)
    ensures
        r == spec_is_ascii_digit(c),
{
    '0' <= c && c <= '9'
}

/// Whether `c` is an ASCII lowercase letter.
pub fn is_ascii_lowercase(c: char) -> (r: bool)
    ensures
        r == spec_is_ascii_lowercase(c),
{
    'a' <= c && c <= 'z'
}

/// Whether the two character sequences are equal.
pub fn chars_eq(a: &Vec<char>, b: &Vec<char>) -> (r: bool)
    ensures
        r == (a@ == b@),
{
    if a.len() != b.len() {
        return false;
    }
    let mut i: usize = 0;
    while i < a.len()
        invariant
            a.len() == b.len(),
            i <= a.len(),
            forall|k: int| 0 <= k < i ==> a@[k] == b@[k],
        decreases a.len() - i,
    {
        if a[i] != b[i] {
            return false;
        }
        i = i + 1;
    }
    assert(a@ =~= b@);
    true
}

/// Whether the two strings hold the same characters.
pub fn str_eq(a: &str, b: &str) -> (r: bool)
    ensures
        r == (a@ == b@),
{
    let va = chars_of(a);
    let vb = chars_of(b);
    chars_eq(&va, &vb)
}

/// Whether `p` occurs in `s` at position `i`.
fn occurs_at_exec(s: &Vec<char>, p: &Vec<char>, i: usize) -> (r: bool)
    ensures
        r == occurs_at(s@, p@, i as int),
{
    if i > s.len() || p.len() > s.len() - i {
        return false;
    }
    let mut k: usize = 0;
    while k < p.len()
        invariant
            i + p.len() <= s.len(),
            k <= p.len(),
            forall|m: int| 0 <= m < k ==> s@[i + m] == p@[m],
        decreases p.len() - k,
    {
        if s[i + k] != p[k] {
            assert(s@.subrange(i as int, i + p.len())[k as int] != p@[k as int]);
            return false;
        }
        k = k + 1;
    }
    assert(s@.subrange(i as int, i + p.len()) =~= p@);
    true
}

/// Whether `s` starts with `p`.
pub fn starts_with(s: &str, p: &str) -> (r: bool)
    ensures
        r == has_prefix(s@, p@),
{
    let vs = chars_of(s);
    let vp = chars_of(p);
    let r = occurs_at_exec(&vs, &vp, 0);
    proof {
        if vp@.len() <= vs@.len() {
            assert(vs@.subrange(0, vp@.len() as int) =~= vs@.take(vp@.len() as int));
        }
    }
    r
}

/// Whether `s` ends with `p`.
pub fn ends_with(s: &str, p: &str) -> (r: bool)
    ensures
        r == has_suffix(s@, p@),
{
    let vs = chars_of(s);
    let vp = chars_of(p);
    if vp.len() > vs.len() {
        return false;
    }
    let r = occurs_at_exec(&vs, &vp, vs.len() - vp.len());
    proof {
        assert(vs@.subrange(vs@.len() - vp@.len(), vs@.len() as int) =~= vs@.skip(
            vs@.len() - vp@.len(),
        ));
    }
    r
}

/// Whether `p` occurs in `s`.
pub fn contains_chars(s: &Vec<char>, p: &Vec<char>) -> (r: bool)
    ensures
        r == has_substring(s@, p@),
{
    if p.len() > s.len() {
        proof {
            assert forall|i: int| !occurs_at(s@, p@, i) by {}
        }
        return false;
    }
    if p.len() == 0 {
        assert(s@.subrange(0, 0) =~= p@);
        assert(occurs_at(s@, p@, 0));
        return true;
    }
    let last = s.len() - p.len();
    let mut i: usize = 0;
    while i <= last
        invariant
            last == s.len() - p.len(),
            0 < p.len() <= s.len(),
            i <= last + 1,
            forall|j: int| 0 <= j < i ==> !occurs_at(s@, p@, j),
        decreases last + 1 - i,
    {
        if occurs_at_exec(s, p, i) {
            return true;
        }
        i = i + 1;
    }
    assert forall|j: int| !occurs_at(s@, p@, j) by {
        if 0 <= j && j + p@.len() <= s@.len() {
            assert(j <= last);
        }
    }
    false
}

/// Whether `p` occurs in `s`.
pub fn contains_str(s: &str, p: &str) -> (r: bool)
    ensures
        r == has_substring(s@, p@),
{
    let vs = chars_of(s);
    let vp = chars_of(p);
    contains_chars(&vs, &vp)
}

/// Whether the character `c` occurs in `s`.
pub fn contains_char(s: &str, c: char) -> (r: bool)
    ensures
        r == s@.contains(c),
{
    let v = chars_of(s);
    let mut i: usize = 0;
    while i < v.len()
        invariant
            v@ == s@,
            i <= v.len(),
            forall|k: int| 0 <= k < i ==> v@[k] != c,
        decreases v.len() - i,
    {
        if v[i] == c {
            assert(v@[i as int] == c);
            return true;
        }
        i = i + 1;
    }
    false
}

/// `s` without leading and trailing whitespace, as `str::trim` defines it.
pub fn trim(s: &str) -> (r: &str)
    ensures
        r@ == trim_spec(s@),
{
    let v = chars_of(s);
    let n = v.len();
    let mut i: usize = 0;
    while i < n && char_is_whitespace(v[i])
        invariant
            n == v.len(),
            v@ == s@,
            i <= n,
            forall|k: int| 0 <= k < i ==> unicode_whitespace(#[trigger] v@[k]),
        decreases n - i,
    {
        i = i + 1;
    }
    let mut j: usize = n;
    while j > i && char_is_whitespace(v[j - 1])
        invariant
            n == v.len(),
            v@ == s@,
            i <= j <= n,
            forall|k: int| j <= k < n ==> unicode_whitespace(#[trigger] v@[k]),
        decreases j,
    {
        j = j - 1;
    }
    proof {
        lemma_leading_ws_char(s@, i as int);
        let t = s@.skip(i as int);
        assert forall|k: int| j - i <= k < t.len() implies unicode_whitespace(#[trigger] t[k]) by {
            assert(t[k] == s@[k + i]);
        }
        if j > i {
            assert(t[j - i - 1] == s@[j - 1]);
        }
        lemma_trailing_ws_char(t, j - i);
        assert(t.take(j - i) =~= s@.subrange(i as int, j as int));
    }
    s.substring_char(i, j)
}

/// `s` with each non-overlapping occurrence of `pat` (leftmost first) replaced by `rep`.
pub fn replace(s: &str, pat: &str, rep: &str) -> (r: String)
    requires
        pat@.len() > 0,
    ensures
        r@ == replace_all(s@, pat@, rep@),
{
    let v = chars_of(s);
    let vp = chars_of(pat);
    let vr = chars_of(rep);
    let mut out: Vec<char> = Vec::new();
    let mut i: usize = 0;
    assert(v@.skip(0) =~= v@);
    assert(out@ + replace_all(v@, vp@, vr@) =~= replace_all(v@, vp@, vr@));
    while i < v.len()
        invariant
            v@ == s@,
            vp@ == pat@,
            vr@ == rep@,
            vp@.len() > 0,
            i <= v.len(),
            out@ + replace_all(v@.skip(i as int), vp@, vr@) == replace_all(v@, vp@, vr@),
        decreases v.len() - i,
    {
        proof {
            lemma_replace_step(v@, vp@, vr@, i as int);
        }
        if occurs_at_exec(&v, &vp, i) {
            let ghost before = out@;
            let mut k: usize = 0;
            while k < vr.len()
                invariant
                    k <= vr.len(),
                    out@ == before + vr@.take(k as int),
                decreases vr.len() - k,
            {
                out.push(vr[k]);
                assert(vr@.take(k as int + 1) =~= vr@.take(k as int).push(vr@[k as int]));
                k = k + 1;
            }
            assert(vr@.take(vr.len() as int) =~= vr@);
            assert(out@ + replace_all(v@.skip(i + vp.len()), vp@, vr@) =~= before + (vr@
                + replace_all(v@.skip(i + vp.len()), vp@, vr@)));
            i = i + vp.len();
        } else {
            let ghost before = out@;
            out.push(v[i]);
            assert(out@ + replace_all(v@.skip(i + 1), vp@, vr@) =~= before + (seq![v@[i as int]]
                + replace_all(v@.skip(i + 1), vp@, vr@)));
            i = i + 1;
        }
    }
    assert(v@.skip(i as int) =~= Seq::<char>::empty());
    assert(out@ + Seq::<char>::empty() =~= out@);
    string_from_chars(&out)
}

} // verus!
