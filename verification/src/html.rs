//! HTML escaping, preview framing and the placeholder template system.

use vstd::prelude::*;
use vstd::string::StringExecFns;

use crate::text::{chars_of, contains_str, has_prefix, has_substring, occurs_at, replace, replace_all, string_from_chars};

verus! {

/// The escaped form of one character.
pub open spec fn escape_char(c: char) -> Seq<char> {
    if c == '&' {
        seq!['&', 'a', 'm', 'p', ';']
    } else if c == '<' {
        seq!['&', 'l', 't', ';']
    } else if c == '>' {
        seq!['&', 'g', 't', ';']
    } else if c == '"' {
        seq!['&', 'q', 'u', 'o', 't', ';']
    } else if c == '\'' {
        seq!['&', '#', '3', '9', ';']
    } else {
        seq![c]
    }
}

/// `s` with `&`, `<`, `>`, `"` and `'` replaced by their HTML entities.
pub open spec fn escape_spec(s: Seq<char>) -> Seq<char>
    decreases s.len(),
{
    if s.len() == 0 {
        seq![]
    } else {
        escape_char(s[0]) + escape_spec(s.drop_first())
    }
}

/// Whether `c` is one of the characters that HTML escaping rewrites.
pub open spec fn is_html_special(c: char) -> bool {
    c == '&' || c == '<' || c == '>' || c == '"' || c == '\''
}

/// Whether `c` could open or close a tag or an attribute value.
pub open spec fn is_markup_char(c: char) -> bool {
    c == '<' || c == '>' || c == '"' || c == '\''
}

/// The opening of the preview frame, up to the start of the `srcdoc` value.
pub open spec fn iframe_open() -> Seq<char> {
    "<iframe class=\"preview-iframe\" sandbox=\"allow-same-origin\" referrerpolicy=\"no-referrer\" srcdoc=\""@
}

/// The end of the preview frame, from the end of the `srcdoc` value.
pub open spec fn iframe_close() -> Seq<char> {
    "\"></iframe>"@
}

/// The two-character sequence backslash, `n`.
pub open spec fn escaped_newline() -> Seq<char> {
    seq!['\\', 'n']
}

/// The two-character sequence backslash, `t`.
pub open spec fn escaped_tab() -> Seq<char> {
    seq!['\\', 't']
}

/// `html` with literal `\n` and `\t` sequences turned into newline and tab.
pub open spec fn normalize_spec(html: Seq<char>) -> Seq<char> {
    replace_all(replace_all(html, escaped_newline(), seq!['\n']), escaped_tab(), seq!['\t'])
}

/// The result of filling the eight placeholders of a site template, in order:
/// title, title (spaced), slug, slug (spaced), kind, kind (spaced), content,
/// content (spaced); title, slug and kind are escaped, content is inserted as is.
pub open spec fn apply_template_spec(
    template: Seq<char>,
    title: Seq<char>,
    content: Seq<char>,
    slug: Seq<char>,
    kind: Seq<char>,
) -> Seq<char> {
    let t = escape_spec(title);
    let s = escape_spec(slug);
    let k = escape_spec(kind);
    let r1 = replace_all(template, "{{title}}"@, t);
    let r2 = replace_all(r1, "{{ title }}"@, t);
    let r3 = replace_all(r2, "{{slug}}"@, s);
    let r4 = replace_all(r3, "{{ slug }}"@, s);
    let r5 = replace_all(r4, "{{kind}}"@, k);
    let r6 = replace_all(r5, "{{ kind }}"@, k);
    let r7 = replace_all(r6, "{{content}}"@, content);
    replace_all(r7, "{{ content }}"@, content)
}

// ---------------------------------------------------------------------------
// Laws
// ---------------------------------------------------------------------------

/// Escaping distributes over concatenation.
pub proof fn lemma_escape_concat(a: Seq<char>, b: Seq<char>)
    ensures
        escape_spec(a + b) == escape_spec(a) + escape_spec(b),
    decreases a.len(),
{
    if a.len() == 0 {
        assert(a + b =~= b);
    } else {
        assert((a + b).drop_first() =~= a.drop_first() + b);
        lemma_escape_concat(a.drop_first(), b);
        assert(escape_char(a[0]) + (escape_spec(a.drop_first()) + escape_spec(b)) =~= (escape_char(
            a[0],
        ) + escape_spec(a.drop_first())) + escape_spec(b));
    }
}

/// Escaped text never contains a character that could open or close a tag or
/// an attribute value.
pub proof fn lemma_escape_has_no_markup(s: Seq<char>)
    ensures
        forall|i: int| 0 <= i < escape_spec(s).len() ==> !is_markup_char(#[trigger] escape_spec(s)[i]),
    decreases s.len(),
{
    if s.len() > 0 {
        lemma_escape_has_no_markup(s.drop_first());
        let e = escape_char(s[0]);
        let rest = escape_spec(s.drop_first());
        assert forall|i: int| 0 <= i < escape_spec(s).len() implies !is_markup_char(
            #[trigger] escape_spec(s)[i],
        ) by {
            if i < e.len() {
                assert(escape_spec(s)[i] == e[i]);
            } else {
                assert(escape_spec(s)[i] == rest[i - e.len()]);
            }
        }
    }
}

/// Text without any of the five special characters is left unchanged by escaping.
pub proof fn lemma_escape_plain_identity(s: Seq<char>)
    requires
        forall|i: int| 0 <= i < s.len() ==> !is_html_special(#[trigger] s[i]),
    ensures
        escape_spec(s) == s,
    decreases s.len(),
{
    if s.len() > 0 {
        assert(!is_html_special(s[0]));
        assert forall|i: int| 0 <= i < s.drop_first().len() implies !is_html_special(
            #[trigger] s.drop_first()[i],
        ) by {
            assert(s.drop_first()[i] == s[i + 1]);
        }
        lemma_escape_plain_identity(s.drop_first());
        assert(seq![s[0]] + s.drop_first() =~= s);
    }
}

/// Replacing a pattern that does not occur leaves the text unchanged.
pub proof fn lemma_replace_absent(s: Seq<char>, pat: Seq<char>, rep: Seq<char>)
    requires
        pat.len() > 0,
        !has_substring(s, pat),
    ensures
        replace_all(s, pat, rep) == s,
    decreases s.len(),
{
    if s.len() > 0 {
        if pat.len() <= s.len() && s.take(pat.len() as int) == pat {
            assert(s.subrange(0, pat.len() as int) =~= s.take(pat.len() as int));
            assert(occurs_at(s, pat, 0));
        }
        let t = s.skip(1);
        assert forall|i: int| !occurs_at(t, pat, i) by {
            if occurs_at(t, pat, i) {
                assert(s.subrange(i + 1, i + 1 + pat.len()) =~= t.subrange(i, i + pat.len()));
                assert(occurs_at(s, pat, i + 1));
            }
        }
        lemma_replace_absent(t, pat, rep);
        assert(seq![s[0]] + t =~= s);
    }
}

/// Whether `x` stands at `i` in `s`, directly followed by `y`.
pub open spec fn pair_at(s: Seq<char>, i: int, x: char, y: char) -> bool {
    s[i] == x && s[i + 1] == y
}

/// No `x` in `s` is directly followed by `y`.
pub open spec fn no_pair(s: Seq<char>, x: char, y: char) -> bool {
    forall|i: int| 0 <= i < s.len() - 1 ==> !#[trigger] pair_at(s, i, x, y)
}

/// Replacing the two-character pattern `ab` by one character `c` leaves no
/// pair `xy` behind when `c` is neither `x` nor `y` and either `xy` is the
/// pattern itself or `s` had no such pair; the result starts with `c` or
/// with the first character of `s`.
proof fn lemma_replace_leaves_no_pair(s: Seq<char>, a: char, b: char, c: char, x: char, y: char)
    requires
        c != x,
        c != y,
        (x == a && y == b) || no_pair(s, x, y),
    ensures
        no_pair(replace_all(s, seq![a, b], seq![c]), x, y),
        replace_all(s, seq![a, b], seq![c]).len() > 0 ==> (replace_all(s, seq![a, b], seq![c])[0]
            == c || (s.len() > 0 && replace_all(s, seq![a, b], seq![c])[0] == s[0])),
    decreases s.len(),
{
    let pat = seq![a, b];
    let rep = seq![c];
    let r = replace_all(s, pat, rep);
    if s.len() == 0 {
        assert(r.len() == 0);
    } else if has_prefix(s, pat) {
        let t = s.skip(2);
        if !(x == a && y == b) {
            assert forall|i: int| 0 <= i < t.len() - 1 implies !#[trigger] pair_at(t, i, x, y) by {
                assert(t[i] == s[i + 2] && t[i + 1] == s[i + 3]);
                assert(!pair_at(s, i + 2, x, y));
            }
        }
        lemma_replace_leaves_no_pair(t, a, b, c, x, y);
        let rt = replace_all(t, pat, rep);
        assert(r == rep + rt);
        assert forall|i: int| 0 <= i < r.len() - 1 implies !#[trigger] pair_at(r, i, x, y) by {
            if i > 0 {
                assert(r[i] == rt[i - 1] && r[i + 1] == rt[i]);
                assert(!pair_at(rt, i - 1, x, y));
            }
        }
    } else {
        let t = s.skip(1);
        if !(x == a && y == b) {
            assert forall|i: int| 0 <= i < t.len() - 1 implies !#[trigger] pair_at(t, i, x, y) by {
                assert(t[i] == s[i + 1] && t[i + 1] == s[i + 2]);
                assert(!pair_at(s, i + 1, x, y));
            }
        }
        lemma_replace_leaves_no_pair(t, a, b, c, x, y);
        let rt = replace_all(t, pat, rep);
        assert(r == seq![s[0]] + rt);
        assert forall|i: int| 0 <= i < r.len() - 1 implies !#[trigger] pair_at(r, i, x, y) by {
            if i > 0 {
                assert(r[i] == rt[i - 1] && r[i + 1] == rt[i]);
                assert(!pair_at(rt, i - 1, x, y));
            } else {
                assert(r[0] == s[0] && r[1] == rt[0]);
                if rt[0] != c {
                    assert(rt[0] == t[0] && t[0] == s[1]);
                    if x == a && y == b && s[0] == x && s[1] == y {
                        assert(s.take(2) =~= pat);
                        assert(has_prefix(s, pat));
                    }
                    if !(x == a && y == b) {
                        assert(!pair_at(s, 0, x, y));
                    }
                }
            }
        }
    }
}

/// A text without the pair `ab` has no occurrence of the pattern `ab`.
proof fn lemma_no_pair_absent(s: Seq<char>, a: char, b: char)
    requires
        no_pair(s, a, b),
    ensures
        !has_substring(s, seq![a, b]),
{
    assert forall|i: int| !occurs_at(s, seq![a, b], i) by {
        if occurs_at(s, seq![a, b], i) {
            assert(s.subrange(i, i + 2)[0] == s[i]);
            assert(s.subrange(i, i + 2)[1] == s[i + 1]);
            assert(pair_at(s, i, a, b));
        }
    }
}

/// Normalizing template HTML twice changes nothing: the result of one pass
/// holds neither an escaped newline nor an escaped tab, since each
/// replacement is a single control character that cannot complete a new
/// escape.
pub proof fn lemma_normalize_idempotent(html: Seq<char>)
    ensures
        normalize_spec(normalize_spec(html)) == normalize_spec(html),
{
    let r1 = replace_all(html, escaped_newline(), seq!['\n']);
    let r = replace_all(r1, escaped_tab(), seq!['\t']);
    lemma_replace_leaves_no_pair(html, '\\', 'n', '\n', '\\', 'n');
    lemma_replace_leaves_no_pair(r1, '\\', 't', '\t', '\\', 'n');
    lemma_replace_leaves_no_pair(r1, '\\', 't', '\t', '\\', 't');
    lemma_no_pair_absent(r, '\\', 'n');
    lemma_no_pair_absent(r, '\\', 't');
    lemma_replace_absent(r, escaped_newline(), seq!['\n']);
    lemma_replace_absent(r, escaped_tab(), seq!['\t']);
}

/// A pattern starting with a character that never occurs in the text is absent.
proof fn lemma_absent_by_first_char(s: Seq<char>, pat: Seq<char>)
    requires
        pat.len() > 0,
        !s.contains(pat[0]),
    ensures
        !has_substring(s, pat),
{
    assert forall|i: int| !occurs_at(s, pat, i) by {
        if occurs_at(s, pat, i) {
            assert(s.subrange(i, i + pat.len())[0] == s[i]);
            assert(s.contains(s[i]));
        }
    }
}

/// A template without any `{` character is returned unchanged, whatever is
/// substituted: placeholders are the only thing the template system rewrites.
pub proof fn lemma_template_without_placeholders(
    template: Seq<char>,
    title: Seq<char>,
    content: Seq<char>,
    slug: Seq<char>,
    kind: Seq<char>,
)
    requires
        !template.contains('{'),
    ensures
        apply_template_spec(template, title, content, slug, kind) == template,
{
    reveal_strlit("{{title}}");
    reveal_strlit("{{ title }}");
    reveal_strlit("{{slug}}");
    reveal_strlit("{{ slug }}");
    reveal_strlit("{{kind}}");
    reveal_strlit("{{ kind }}");
    reveal_strlit("{{content}}");
    reveal_strlit("{{ content }}");
    let t = escape_spec(title);
    let s = escape_spec(slug);
    let k = escape_spec(kind);
    lemma_absent_by_first_char(template, "{{title}}"@);
    lemma_replace_absent(template, "{{title}}"@, t);
    lemma_absent_by_first_char(template, "{{ title }}"@);
    lemma_replace_absent(template, "{{ title }}"@, t);
    lemma_absent_by_first_char(template, "{{slug}}"@);
    lemma_replace_absent(template, "{{slug}}"@, s);
    lemma_absent_by_first_char(template, "{{ slug }}"@);
    lemma_replace_absent(template, "{{ slug }}"@, s);
    lemma_absent_by_first_char(template, "{{kind}}"@);
    lemma_replace_absent(template, "{{kind}}"@, k);
    lemma_absent_by_first_char(template, "{{ kind }}"@);
    lemma_replace_absent(template, "{{ kind }}"@, k);
    lemma_absent_by_first_char(template, "{{content}}"@);
    lemma_replace_absent(template, "{{content}}"@, content);
    lemma_absent_by_first_char(template, "{{ content }}"@);
    lemma_replace_absent(template, "{{ content }}"@, content);
}

/// The preview frame keeps its `srcdoc` attribute closed: the embedded document
/// contains no quote or angle bracket, whatever HTML it was built from.
pub proof fn lemma_srcdoc_is_closed(html: Seq<char>)
    ensures
        forall|i: int|
            0 <= i < escape_spec(html).len() ==> #[trigger] escape_spec(html)[i] != '"',
{
    lemma_escape_has_no_markup(html);
}

// ---------------------------------------------------------------------------
// Executable functions
// ---------------------------------------------------------------------------

/// Escapes `&`, `<`, `>`, `"` and `'` as HTML entities.
pub fn escape_html(input: &str) -> (out: String)
    ensures
        out@ == escape_spec(input@),
{
    let v = chars_of(input);
    let mut out: Vec<char> = Vec::new();
    let mut i: usize = 0;
    assert(v@.skip(0) =~= v@);
    assert(out@ + escape_spec(v@) =~= escape_spec(v@));
    while i < v.len()
        invariant
            v@ == input@,
            i <= v.len(),
            out@ + escape_spec(v@.skip(i as int)) == escape_spec(v@),
        decreases v.len() - i,
    {
        let ghost before = out@;
        let c = v[i];
        if c == '&' {
            out.push('&');
            out.push('a');
            out.push('m');
            out.push('p');
            out.push(';');
        } else if c == '<' {
            out.push('&');
            out.push('l');
            out.push('t');
            out.push(';');
        } else if c == '>' {
            out.push('&');
            out.push('g');
            out.push('t');
            out.push(';');
        } else if c == '"' {
            out.push('&');
            out.push('q');
            out.push('u');
            out.push('o');
            out.push('t');
            out.push(';');
        } else if c == '\'' {
            out.push('&');
            out.push('#');
            out.push('3');
            out.push('9');
            out.push(';');
        } else {
            out.push(c);
        }
        proof {
            let t = v@.skip(i as int);
            assert(t.drop_first() =~= v@.skip(i + 1));
            assert(out@ =~= before + escape_char(c));
            assert(out@ + escape_spec(v@.skip(i + 1)) =~= before + (escape_char(t[0]) + escape_spec(
                t.drop_first(),
            )));
        }
        i = i + 1;
    }
    assert(v@.skip(i as int) =~= Seq::<char>::empty());
    assert(out@ + Seq::<char>::empty() =~= out@);
    string_from_chars(&out)
}

/// Wraps `html` in a sandboxed preview frame, escaped into its `srcdoc` attribute.
pub fn iframe_srcdoc(html: &str) -> (out: String)
    ensures
        out@ == iframe_open() + escape_spec(html@) + iframe_close(),
{
    let mut out = String::from_str(
        "<iframe class=\"preview-iframe\" sandbox=\"allow-same-origin\" referrerpolicy=\"no-referrer\" srcdoc=\"",
    );
    let escaped = escape_html(html);
    out.append(escaped.as_str());
    out.append("\"></iframe>");
    out
}

/// Turns literal `\n` and `\t` sequences (as older built-in templates store
/// them) into newline and tab characters.
pub fn normalize_builtin_template_html(html: &str) -> (out: String)
    ensures
        out@ == normalize_spec(html@),
        !has_substring(html@, escaped_newline()) && !has_substring(html@, escaped_tab())
            ==> out@ == html@,
{
    proof {
        reveal_strlit("\\n");
        reveal_strlit("\\t");
        reveal_strlit("\n");
        reveal_strlit("\t");
        assert("\\n"@ =~= escaped_newline());
        assert("\\t"@ =~= escaped_tab());
        assert("\n"@ =~= seq!['\n']);
        assert("\t"@ =~= seq!['\t']);
    }
    if !(contains_str(html, "\\n") || contains_str(html, "\\t")) {
        proof {
            lemma_replace_absent(html@, escaped_newline(), seq!['\n']);
            lemma_replace_absent(html@, escaped_tab(), seq!['\t']);
        }
        return String::from_str(html);
    }
    let first = replace(html, "\\n", "\n");
    replace(first.as_str(), "\\t", "\t")
}

/// Fills the placeholders of a site template. Title, slug and kind are
/// HTML-escaped; the content is inserted as it is.
pub fn apply_site_template(
    template_html: &str,
    title: &str,
    content_html: &str,
    slug: &str,
    kind: &str,
) -> (out: String)
    ensures
        out@ == apply_template_spec(template_html@, title@, content_html@, slug@, kind@),
{
    proof {
        reveal_strlit("{{title}}");
        reveal_strlit("{{ title }}");
        reveal_strlit("{{slug}}");
        reveal_strlit("{{ slug }}");
        reveal_strlit("{{kind}}");
        reveal_strlit("{{ kind }}");
        reveal_strlit("{{content}}");
        reveal_strlit("{{ content }}");
    }
    let title_e = escape_html(title);
    let slug_e = escape_html(slug);
    let kind_e = escape_html(kind);
    let out = replace(template_html, "{{title}}", title_e.as_str());
    let out = replace(out.as_str(), "{{ title }}", title_e.as_str());
    let out = replace(out.as_str(), "{{slug}}", slug_e.as_str());
    let out = replace(out.as_str(), "{{ slug }}", slug_e.as_str());
    let out = replace(out.as_str(), "{{kind}}", kind_e.as_str());
    let out = replace(out.as_str(), "{{ kind }}", kind_e.as_str());
    let out = replace(out.as_str(), "{{content}}", content_html);
    replace(out.as_str(), "{{ content }}", content_html)
}

} // verus!
