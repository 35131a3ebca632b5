//! Plain-text clean-up of the descriptions that the Pokemon provider hands out.
//!
//! A raw description is cleaned in three steps, as the provider's texts need:
//! every `"\r\n"` pair becomes one space, every remaining line break (`'\n'`,
//! `'\r'`, form feed) becomes one space, and the whitespace at both ends is
//! cut off.

use vstd::prelude::*;

verus! {

/// The characters that the clean-up turns into spaces.
pub open spec fn is_line_break(c: char) -> bool {
    c == '\n' || c == '\r' || c == '\u{c}'
}

/// The characters with the Unicode `White_Space` property.
pub open spec fn is_unicode_whitespace(c: char) -> bool {
    ||| '\u{9}' <= c <= '\u{d}'
    ||| c == ' '
    ||| c == '\u{85}'
    ||| c == '\u{a0}'
    ||| c == '\u{1680}'
    ||| '\u{2000}' <= c <= '\u{200a}'
    ||| c == '\u{2028}'
    ||| c == '\u{2029}'
    ||| c == '\u{202f}'
    ||| c == '\u{205f}'
    ||| c == '\u{3000}'
}

/// `s` with each `"\r\n"` pair, found from left to right without overlap,
/// replaced by one space.
pub open spec fn replace_crlf(s: Seq<char>) -> Seq<char>
    decreases s.len(),
{
    if s.len() == 0 {
        s
    } else if s.len() >= 2 && s[0] == '\r' && s[1] == '\n' {
        seq![' '] + replace_crlf(s.skip(2))
    } else {
        seq![s[0]] + replace_crlf(s.skip(1))
    }
}

/// `s` with each line break replaced by one space.
pub open spec fn blank_line_breaks(s: Seq<char>) -> Seq<char> {
    s.map_values(|c: char| if is_line_break(c) { ' ' } else { c })
}

/// `s` without its leading whitespace.
pub open spec fn trim_start(s: Seq<char>) -> Seq<char>
    decreases s.len(),
{
    if s.len() > 0 && is_unicode_whitespace(s[0]) {
        trim_start(s.skip(1))
    } else {
        s
    }
}

/// `s` without its trailing whitespace.
pub open spec fn trim_end(s: Seq<char>) -> Seq<char>
    decreases s.len(),
{
    if s.len() > 0 && is_unicode_whitespace(s.last()) {
        trim_end(s.drop_last())
    } else {
        s
    }
}

/// `s` without the whitespace at both ends.
pub open spec fn trim(s: Seq<char>) -> Seq<char> {
    trim_end(trim_start(s))
}

/// The cleaned form of the raw description `s`.
pub open spec fn sanitized(s: Seq<char>) -> Seq<char> {
    trim(blank_line_breaks(replace_crlf(s)))
}

/// A text that holds no line break and neither starts nor ends with whitespace.
pub open spec fn is_clean(t: Seq<char>) -> bool {
    &&& forall|i: int| 0 <= i < t.len() ==> !is_line_break(#[trigger] t[i])
    &&& t.len() > 0 ==> !is_unicode_whitespace(t[0]) && !is_unicode_whitespace(t.last())
}

/// A text without `'\r'` has no `"\r\n"` pair to replace.
proof fn lemma_replace_crlf_without_cr(s: Seq<char>)
    requires
        forall|i: int| 0 <= i < s.len() ==> s[i] != '\r',
    ensures
        replace_crlf(s) == s,
    decreases s.len(),
{
    if s.len() > 0 {
        lemma_replace_crlf_without_cr(s.skip(1));
        assert(seq![s[0]] + s.skip(1) =~= s);
    }
}

/// Cutting leading whitespace drops a prefix, after which the text is empty
/// or starts with a character that is not whitespace.
proof fn lemma_trim_start_shape(s: Seq<char>) -> (k: int)
    ensures
        0 <= k <= s.len(),
        trim_start(s) == s.skip(k),
        trim_start(s).len() > 0 ==> !is_unicode_whitespace(trim_start(s)[0]),
        forall|i: int| 0 <= i < k ==> is_unicode_whitespace(#[trigger] s[i]),
    decreases s.len(),
{
    if s.len() > 0 && is_unicode_whitespace(s[0]) {
        let k1 = lemma_trim_start_shape(s.skip(1));
        assert(s.skip(1).skip(k1) =~= s.skip(k1 + 1));
        assert forall|i: int| 0 <= i < k1 + 1 implies is_unicode_whitespace(#[trigger] s[i]) by {
            if i > 0 {
                assert(s[i] == s.skip(1)[i - 1]);
            }
        }
        k1 + 1
    } else {
        assert(s.skip(0) =~= s);
        0
    }
}

/// Cutting trailing whitespace keeps a prefix, which is empty or ends with a
/// character that is not whitespace.
proof fn lemma_trim_end_shape(s: Seq<char>) -> (k: int)
    ensures
        0 <= k <= s.len(),
        trim_end(s) == s.take(k),
        trim_end(s).len() > 0 ==> !is_unicode_whitespace(trim_end(s).last()),
        forall|i: int| k <= i < s.len() ==> is_unicode_whitespace(#[trigger] s[i]),
    decreases s.len(),
{
    if s.len() > 0 && is_unicode_whitespace(s.last()) {
        let k1 = lemma_trim_end_shape(s.drop_last());
        assert(s.drop_last().take(k1) =~= s.take(k1));
        assert forall|i: int| k1 <= i < s.len() implies is_unicode_whitespace(#[trigger] s[i]) by {
            if i < s.len() - 1 {
                assert(s[i] == s.drop_last()[i]);
            }
        }
        k1
    } else {
        assert(s.take(s.len() as int) =~= s);
        s.len() as int
    }
}

/// The cleaned form of any description is clean: it holds no line break and
/// neither starts nor ends with whitespace.
pub proof fn lemma_sanitized_is_clean(s: Seq<char>)
    ensures
        is_clean(sanitized(s)),
{
    let b = blank_line_breaks(replace_crlf(s));
    let k1 = lemma_trim_start_shape(b);
    let ts = trim_start(b);
    let k2 = lemma_trim_end_shape(ts);
    let t = trim_end(ts);
    assert(t =~= b.subrange(k1, k1 + k2));
    assert forall|i: int| 0 <= i < t.len() implies !is_line_break(#[trigger] t[i]) by {
        assert(t[i] == b[k1 + i]);
    }
    if t.len() > 0 {
        assert(t[0] == ts[0]);
    }
}

/// A clean text is its own cleaned form.
pub proof fn lemma_clean_is_unchanged(t: Seq<char>)
    requires
        is_clean(t),
    ensures
        sanitized(t) == t,
{
    lemma_replace_crlf_without_cr(t);
    assert(blank_line_breaks(t) =~= t);
    assert(trim_start(t) == t);
    assert(trim_end(t) == t);
}

/// Cleaning a description twice gives what cleaning it once gives.
pub proof fn lemma_sanitize_idempotent(s: Seq<char>)
    ensures
        sanitized(sanitized(s)) == sanitized(s),
{
    lemma_sanitized_is_clean(s);
    lemma_clean_is_unchanged(sanitized(s));
}

/// Trimming keeps the part of `s` between its first and its last character
/// that is not whitespace: it drops exactly the whitespace at both ends.
pub proof fn lemma_trim_keeps_inner_part(s: Seq<char>) -> (bounds: (int, int))
    ensures
        0 <= bounds.0 <= bounds.1 <= s.len(),
        trim(s) == s.subrange(bounds.0, bounds.1),
        forall|i: int| 0 <= i < bounds.0 ==> is_unicode_whitespace(#[trigger] s[i]),
        forall|i: int| bounds.1 <= i < s.len() ==> is_unicode_whitespace(#[trigger] s[i]),
        bounds.0 < bounds.1 ==> !is_unicode_whitespace(s[bounds.0]) && !is_unicode_whitespace(
            s[bounds.1 - 1],
        ),
{
    let k1 = lemma_trim_start_shape(s);
    let ts = trim_start(s);
    let k2 = lemma_trim_end_shape(ts);
    assert(trim(s) =~= s.subrange(k1, k1 + k2));
    assert forall|i: int| k1 + k2 <= i < s.len() implies is_unicode_whitespace(#[trigger] s[i]) by {
        assert(s[i] == ts[i - k1]);
    }
    if k2 > 0 {
        assert(trim(s)[0] == ts[0]);
        assert(trim(s).last() == s[k1 + k2 - 1]);
    }
    (k1, k1 + k2)
}

/// Replacing `"\r\n"` pairs works piece by piece, as long as the cut does not
/// split a pair.
proof fn lemma_replace_crlf_concat(p: Seq<char>, q: Seq<char>)
    requires
        !(p.len() > 0 && q.len() > 0 && p.last() == '\r' && q[0] == '\n'),
    ensures
        replace_crlf(p + q) == replace_crlf(p) + replace_crlf(q),
    decreases p.len(),
{
    let pq = p + q;
    if p.len() == 0 {
        assert(pq =~= q);
        assert(replace_crlf(p) + replace_crlf(q) =~= replace_crlf(q));
    } else if p.len() >= 2 && p[0] == '\r' && p[1] == '\n' {
        assert(pq[0] == '\r' && pq[1] == '\n');
        assert(pq.skip(2) =~= p.skip(2) + q);
        if p.len() > 2 {
            assert(p.skip(2).last() == p.last());
        }
        lemma_replace_crlf_concat(p.skip(2), q);
        assert(seq![' '] + (replace_crlf(p.skip(2)) + replace_crlf(q)) =~= (seq![' ']
            + replace_crlf(p.skip(2))) + replace_crlf(q));
    } else {
        assert(!(pq.len() >= 2 && pq[0] == '\r' && pq[1] == '\n')) by {
            if p.len() == 1 && q.len() > 0 {
                assert(p.last() == p[0]);
                assert(pq[1] == q[0]);
            }
        }
        assert(pq[0] == p[0]);
        assert(pq.skip(1) =~= p.skip(1) + q);
        if p.len() > 1 {
            assert(p.skip(1).last() == p.last());
        }
        lemma_replace_crlf_concat(p.skip(1), q);
        assert(seq![p[0]] + (replace_crlf(p.skip(1)) + replace_crlf(q)) =~= (seq![p[0]]
            + replace_crlf(p.skip(1))) + replace_crlf(q));
    }
}

/// The line-break step of the clean-up (each `"\r\n"` pair, then each
/// remaining line break, to one space) works piece by piece, as long as the
/// cut does not split a `"\r\n"` pair.
pub proof fn lemma_line_break_step_concat(p: Seq<char>, q: Seq<char>)
    requires
        !(p.len() > 0 && q.len() > 0 && p.last() == '\r' && q[0] == '\n'),
    ensures
        blank_line_breaks(replace_crlf(p + q)) == blank_line_breaks(replace_crlf(p))
            + blank_line_breaks(replace_crlf(q)),
{
    lemma_replace_crlf_concat(p, q);
    assert(blank_line_breaks(replace_crlf(p) + replace_crlf(q)) =~= blank_line_breaks(
        replace_crlf(p),
    ) + blank_line_breaks(replace_crlf(q)));
}

/// The line-break step turns a `"\r\n"` pair into one space.
pub proof fn lemma_line_break_step_of_crlf()
    ensures
        blank_line_breaks(replace_crlf(seq!['\r', '\n'])) == seq![' '],
{
    let s = seq!['\r', '\n'];
    assert(s.skip(2) =~= Seq::<char>::empty());
    assert(s[0] == '\r' && s[1] == '\n');
    assert(replace_crlf(Seq::<char>::empty()) == Seq::<char>::empty());
    assert(seq![' '] + Seq::<char>::empty() =~= seq![' ']);
    assert(replace_crlf(s) =~= seq![' ']);
    assert(blank_line_breaks(seq![' ']) =~= seq![' ']);
}

/// The line-break step turns a lone `'\n'`, `'\r'` or form feed into one
/// space, and keeps any other character as it is.
pub proof fn lemma_line_break_step_of_char(c: char)
    ensures
        blank_line_breaks(replace_crlf(seq![c])) == (if c == '\n' || c == '\r' || c == '\u{c}' {
            seq![' ']
        } else {
            seq![c]
        }),
{
    let s = seq![c];
    assert(s.skip(1) =~= Seq::<char>::empty());
    assert(s[0] == c);
    assert(replace_crlf(Seq::<char>::empty()) == Seq::<char>::empty());
    assert(seq![c] + Seq::<char>::empty() =~= seq![c]);
    assert(replace_crlf(s) =~= seq![c]);
    assert(blank_line_breaks(seq![c]) =~= (if c == '\n' || c == '\r' || c == '\u{c}' {
        seq![' ']
    } else {
        seq![c]
    }));
}

/// A description with no `'\n'`, `'\r'` or form feed is only trimmed: its
/// cleaned form is the part of it between its first and its last character
/// that is not whitespace, every other character kept as it is.
pub proof fn lemma_sanitize_without_line_breaks(s: Seq<char>) -> (bounds: (int, int))
    requires
        forall|i: int| 0 <= i < s.len() ==> #[trigger] s[i] != '\n' && s[i] != '\r' && s[i] != '\u{c}',
    ensures
        0 <= bounds.0 <= bounds.1 <= s.len(),
        sanitized(s) == s.subrange(bounds.0, bounds.1),
        forall|i: int| 0 <= i < bounds.0 ==> is_unicode_whitespace(#[trigger] s[i]),
        forall|i: int| bounds.1 <= i < s.len() ==> is_unicode_whitespace(#[trigger] s[i]),
        bounds.0 < bounds.1 ==> !is_unicode_whitespace(s[bounds.0]) && !is_unicode_whitespace(
            s[bounds.1 - 1],
        ),
{
    lemma_replace_crlf_without_cr(s);
    assert(blank_line_breaks(s) =~= s);
    lemma_trim_keeps_inner_part(s)
}

/// Whether `c` has the Unicode `White_Space` property.
pub fn is_whitespace(c: char) -> (b: bool)
    ensures
        b == is_unicode_whitespace(c),
{
    ('\u{9}' <= c && c <= '\u{d}') || c == ' ' || c == '\u{85}' || c == '\u{a0}' || c == '\u{1680}'
        || ('\u{2000}' <= c && c <= '\u{200a}') || c == '\u{2028}' || c == '\u{2029}' || c
        == '\u{202f}' || c == '\u{205f}' || c == '\u{3000}'
}

/// Appends `c` to `s` (`String::push`).
#[verifier::external_body]
fn push_char(s: &mut String, c: char)
    ensures
        final(s)@ == old(s)@.push(c),
{
    s.push(c)
}

/// The characters of `s`, in order.
fn chars_of(s: &str) -> (v: Vec<char>)
    ensures
        v@ == s@,
{
    let mut v: Vec<char> = Vec::new();
    for c in it: s.chars()
        invariant
            v@ == it.seq().take(it.index() as int),
    {
        v.push(c);
    }
    v
}


/// Every `"\r\n"` pair of `v`, from left to right, replaced by one space.
fn collapse_crlf(v: &Vec<char>) -> (out: Vec<char>)
    ensures
        out@ == replace_crlf(v@),
{
    let n = v.len();
    let mut out: Vec<char> = Vec::new();
    let mut i: usize = 0;
    assert(v@.skip(0) =~= v@);
    while i < n
        invariant
            n == v.len(),
            i <= n,
            replace_crlf(v@) == out@ + replace_crlf(v@.skip(i as int)),
        decreases n - i,
    {
        let ghost rest = v@.skip(i as int);
        if i + 1 < n && v[i] == '\r' && v[i + 1] == '\n' {
            assert(rest.skip(2) =~= v@.skip(i + 2));
            out.push(' ');
            i = i + 2;
        } else {
            assert(rest.skip(1) =~= v@.skip(i + 1));
            out.push(v[i]);
            i = i + 1;
        }
        assert(replace_crlf(v@) == out@ + replace_crlf(v@.skip(i as int)));
    }
    assert(v@.skip(n as int) =~= Seq::<char>::empty());
    assert(out@ + Seq::<char>::empty() =~= out@);
    out
}

/// `v` with each line break replaced by one space.
fn blank_breaks(v: Vec<char>) -> (out: Vec<char>)
    ensures
        out@ == blank_line_breaks(v@),
{
    let n = v.len();
    let mut out: Vec<char> = Vec::new();
    for j in 0..n
        invariant
            n == v.len(),
            out.len() == j,
            forall|k: int|
                0 <= k < j ==> out@[k] == (if is_line_break(v@[k]) { ' ' } else { v@[k] }),
    {
        let c = v[j];
        if c == '\n' || c == '\r' || c == '\u{c}' {
            out.push(' ');
        } else {
            out.push(c);
        }
    }
    assert(out@ =~= blank_line_breaks(v@));
    out
}

/// The characters of `v` without the whitespace at both ends, as a `String`.
fn trimmed_string(v: &Vec<char>) -> (s: String)
    ensures
        s@ == trim(v@),
{
    let n = v.len();
    let mut start: usize = 0;
    assert(v@.skip(0) =~= v@);
    while start < n && is_whitespace(v[start])
        invariant
            n == v.len(),
            start <= n,
            trim_start(v@) == trim_start(v@.skip(start as int)),
        decreases n - start,
    {
        assert(v@.skip(start as int).skip(1) =~= v@.skip(start + 1));
        start = start + 1;
    }
    assert(trim_start(v@) == v@.skip(start as int));
    let mut end: usize = n;
    assert(v@.subrange(start as int, n as int) =~= v@.skip(start as int));
    while end > start && is_whitespace(v[end - 1])
        invariant
            n == v.len(),
            start <= end <= n,
            trim(v@) == trim_end(v@.subrange(start as int, end as int)),
        decreases end - start,
    {
        assert(v@.subrange(start as int, end as int).drop_last() =~= v@.subrange(
            start as int,
            end - 1,
        ));
        end = end - 1;
    }
    assert(trim(v@) == v@.subrange(start as int, end as int));
    let mut s = String::new();
    let mut k: usize = start;
    while k < end
        invariant
            start <= k <= end <= n,
            n == v.len(),
            s@ == v@.subrange(start as int, k as int),
        decreases end - k,
    {
        push_char(&mut s, v[k]);
        assert(v@.subrange(start as int, k + 1) =~= v@.subrange(start as int, k as int).push(
            v@[k as int],
        ));
        k = k + 1;
    }
    s
}

/// The cleaned form of the raw description `desc`: each `"\r\n"` pair and
/// then each remaining `'\n'`, `'\r'` and form feed becomes one space, and
/// the whitespace at both ends is cut off.
pub fn sanitize_description(desc: &str) -> (r: String)
    ensures
        r@ == sanitized(desc@),
        is_clean(r@),
{
    proof {
        lemma_sanitized_is_clean(desc@);
    }
    let chars = chars_of(desc);
    let collapsed = collapse_crlf(&chars);
    let blanked = blank_breaks(collapsed);
    trimmed_string(&blanked)
}

} // verus!
