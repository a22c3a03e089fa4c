use vstd::prelude::*;
use crate::progress::{decimal_parts, lemma_decimal_parts, Percentage};
use crate::text::{
    all_digits, chars_of, contains, is_digit, find, find_from, is_space, lemma_find_first, lemma_find_none,
    lemma_find_reaches, slice_of, space, trim, trimmed,
};

verus! {

/// Whether the `%` at `i` ends a white-space-delimited token of `s`.
pub open spec fn closes_percent(s: Seq<char>, i: int) -> bool {
    0 <= i < s.len() && s[i] == '%' && (i + 1 == s.len() || is_space(s[i + 1]))
}

/// Index of the first `%` at or after `i` that ends a token, or `s.len()`.
pub open spec fn percent_close_from(s: Seq<char>, i: int) -> int
    decreases s.len() - i,
{
    if 0 <= i < s.len() {
        if closes_percent(s, i) {
            i
        } else {
            percent_close_from(s, i + 1)
        }
    } else {
        s.len() as int
    }
}

/// Start of the token of `s` that ends just before index `e`.
pub open spec fn token_start(s: Seq<char>, e: int) -> int
    decreases e,
{
    if 0 < e <= s.len() && !is_space(s[e - 1]) {
        token_start(s, e - 1)
    } else {
        e
    }
}

/// The first white-space-delimited token of `s` that ends in `%`, without
/// the `%`.
pub open spec fn percent_token(s: Seq<char>) -> Option<Seq<char>> {
    let e = percent_close_from(s, 0);
    if 0 <= e < s.len() {
        Some(s.subrange(token_start(s, e), e))
    } else {
        None
    }
}

/// The percentage a line of the tool's output reports, as integer and
/// fractional digits: a line that holds the download marker and a `%`,
/// whose first token ending in `%` is a decimal number.
pub open spec fn line_percent(l: Seq<char>) -> Option<(Seq<char>, Seq<char>)> {
    if contains(l, "[download]"@) && contains(l, "%"@) {
        match percent_token(l) {
            Some(t) => decimal_parts(t),
            None => None,
        }
    } else {
        None
    }
}

/// The destination path remembered after line `l`, `prev` before it: the
/// trimmed text after the first `Destination:` label, or `prev` where the
/// line has none.
pub open spec fn next_destination(prev: Seq<char>, l: Seq<char>) -> Seq<char> {
    let k = find_from(l, "Destination:"@, 0);
    if k >= 0 {
        trim(l.subrange(k + "Destination:"@.len(), l.len() as int))
    } else {
        prev
    }
}

/// Bounds of the first token of `v` that ends in `%`: its start, and the
/// index of its `%`.
fn percent_token_bounds(v: &Vec<char>) -> (r: Option<(usize, usize)>)
    ensures
        match r {
            Some((a, e)) => percent_close_from(v@, 0) == e && e < v@.len() && token_start(v@, e as int) == a && a <= e,
            None => percent_close_from(v@, 0) >= v@.len(),
        },
{
    let n = v.len();
    let mut e: usize = 0;
    while e < n && !(v[e] == '%' && (e + 1 == n || space(v[e + 1])))
        invariant
            n == v@.len(),
            e <= n,
            percent_close_from(v@, 0) == percent_close_from(v@, e as int),
        decreases n - e,
    {
        e += 1;
    }
    if e == n {
        return None;
    }
    let mut a: usize = e;
    while a > 0 && !space(v[a - 1])
        invariant
            n == v@.len(),
            a <= e < n,
            token_start(v@, e as int) == token_start(v@, a as int),
        decreases a,
    {
        a -= 1;
    }
    Some((a, e))
}

/// The percentage that `line` reports, if it reports one.
pub fn line_percent_of(line: &str) -> (r: Option<Percentage>)
    ensures
        match line_percent(line@) {
            Some((w, f)) => r is Some && r->0.whole@ == w && r->0.fraction@ == f,
            None => r is None,
        },
        r matches Some(p) ==> p.wf(),
{
    let v = chars_of(line);
    let marker = chars_of("[download]");
    let sign = chars_of("%");
    if find(&v, &marker).is_none() || find(&v, &sign).is_none() {
        return None;
    }
    match percent_token_bounds(&v) {
        Some((a, e)) => {
            let token = slice_of(line, a, e);
            Percentage::parse(token.as_str())
        },
        None => None,
    }
}

/// The trimmed text after the first `Destination:` label of `line`, if it
/// has one.
pub fn destination_of(line: &str) -> (r: Option<String>)
    ensures
        find_from(line@, "Destination:"@, 0) >= 0 ==> (r matches Some(d) && d@ == next_destination(
            Seq::empty(),
            line@,
        )),
        find_from(line@, "Destination:"@, 0) < 0 ==> r is None,
{
    let label = "Destination:";
    let v = chars_of(line);
    let p = chars_of(label);
    let n = v.len();
    let m = p.len();
    match find(&v, &p) {
        Some(k) => {
            let rest = slice_of(line, k + m, n);
            Some(trimmed(rest.as_str()))
        },
        None => None,
    }
}

proof fn lemma_percent_close(s: Seq<char>, i: int, e: int)
    requires
        0 <= i <= e,
        closes_percent(s, e),
        forall|k: int| i <= k < e ==> !closes_percent(s, k),
    ensures
        percent_close_from(s, i) == e,
    decreases e - i,
{
    if i < e {
        lemma_percent_close(s, i + 1, e);
    }
}

proof fn lemma_token_start(s: Seq<char>, a: int, e: int)
    requires
        0 <= a <= e <= s.len(),
        a == 0 || is_space(s[a - 1]),
        forall|k: int| a <= k < e ==> !is_space(s[k]),
    ensures
        token_start(s, e) == a,
    decreases e - a,
{
    if a < e {
        lemma_token_start(s, a, e - 1);
    }
}

/// A token `t` that follows the download marker and a space and ends in `%`
/// is the one a line is read by: the line reports `decimal_parts(t)`.
pub proof fn lemma_marked_token(t: Seq<char>, rest: Seq<char>)
    requires
        forall|k: int| 0 <= k < t.len() ==> !is_space(#[trigger] t[k]) && t[k] != '%',
        rest.len() == 0 || is_space(rest[0]),
    ensures
        line_percent("[download] "@ + t + "%"@ + rest) == decimal_parts(t),
{
    reveal_strlit("[download] ");
    reveal_strlit("[download]");
    reveal_strlit("%");
    let m = "[download] "@;
    let l = m + t + "%"@ + rest;
    let e = (m.len() + t.len()) as int;
    assert(l.subrange(0, 10) =~= "[download]"@);
    lemma_find_reaches(l, "[download]"@, 0, 0);
    assert(l.subrange(e, e + 1) =~= "%"@);
    lemma_find_reaches(l, "%"@, 0, e);
    assert(l[e] == '%');
    if rest.len() > 0 {
        assert(l[e + 1] == rest[0]);
    }
    assert(closes_percent(l, e));
    assert forall|k: int| 0 <= k < e implies !closes_percent(l, k) by {
        if k >= m.len() {
            assert(l[k] == t[k - m.len()]);
        }
    }
    lemma_percent_close(l, 0, e);
    assert forall|k: int| m.len() <= k < e implies !is_space(l[k]) by {
        assert(l[k] == t[k - m.len()]);
    }
    lemma_token_start(l, m.len() as int, e);
    assert(l.subrange(m.len() as int, e) =~= t);
}

/// A percentage written `<digits>.<digits>%` or `<digits>%` after the
/// download marker is reported with exactly those integer and fractional
/// digits, so its value is the number written.
pub proof fn lemma_download_percentage(w: Seq<char>, f: Seq<char>, rest: Seq<char>)
    requires
        all_digits(w),
        all_digits(f),
        w.len() > 0,
        rest.len() == 0 || is_space(rest[0]),
    ensures
        line_percent("[download] "@ + w + "."@ + f + "%"@ + rest) == Some((w, f)),
        line_percent("[download] "@ + w + "%"@ + rest) == Some((w, Seq::<char>::empty())),
{
    reveal_strlit(".");
    lemma_decimal_parts(w, f);
    let t = w + "."@ + f;
    assert forall|k: int| 0 <= k < t.len() implies !is_space(#[trigger] t[k]) && t[k] != '%' by {
        if k < w.len() {
            assert(t[k] == w[k] && is_digit(w[k]));
        } else if k > w.len() {
            assert(t[k] == f[k - w.len() - 1] && is_digit(f[k - w.len() - 1]));
        }
    }
    lemma_marked_token(t, rest);
    assert("[download] "@ + w + "."@ + f + "%"@ + rest =~= "[download] "@ + t + "%"@ + rest);
    assert forall|k: int| 0 <= k < w.len() implies !is_space(#[trigger] w[k]) && w[k] != '%' by {
        assert(is_digit(w[k]));
    }
    lemma_marked_token(w, rest);
}

/// The path remembered after a line whose first `Destination:` label
/// follows `pre` is the rest of the line, trimmed; a line without the label
/// leaves the remembered path as it was.
pub proof fn lemma_destination(prev: Seq<char>, pre: Seq<char>, tail: Seq<char>, other: Seq<char>)
    requires
        !contains(pre, "Destination:"@),
    ensures
        next_destination(prev, pre + "Destination:"@ + tail) == trim(tail),
        !contains(other, "Destination:"@) ==> next_destination(prev, other) == prev,
{
    reveal_strlit("Destination:");
    let d = "Destination:"@;
    let l = pre + d + tail;
    let n = pre.len() as int;
    assert(l.subrange(n, n + d.len()) =~= d);
    assert forall|k: int| 0 <= k < n implies #[trigger] l.subrange(k, k + d.len()) != d by {
        if k + d.len() <= n {
            lemma_find_none(pre, d, 0, k);
            assert(l.subrange(k, k + d.len()) =~= pre.subrange(k, k + d.len()));
        } else {
            assert(l.subrange(k, k + d.len())[n - k] == l[n]);
            assert(l[n] == 'D');
        }
    }
    lemma_find_first(l, d, 0, n);
    assert(l.subrange(n + d.len(), l.len() as int) =~= tail);
}

/// Reading the same line again remembers the same path; and where the line
/// holds the label, the path remembered before it does not matter. (What a
/// line reports, `line_percent(l)`, is a function of the line alone.)
pub proof fn lemma_line_idempotent(prev: Seq<char>, l: Seq<char>)
    ensures
        next_destination(next_destination(prev, l), l) == next_destination(prev, l),
        contains(l, "Destination:"@) ==> forall|other: Seq<char>|
            #[trigger] next_destination(other, l) == next_destination(prev, l),
{
}

/// A line whose first token ending in `%` is no decimal number reports
/// nothing.
pub proof fn lemma_unreadable_percentage(l: Seq<char>)
    requires
        percent_token(l) matches Some(t) && decimal_parts(t) is None,
    ensures
        line_percent(l) is None,
{
}

} // verus!
