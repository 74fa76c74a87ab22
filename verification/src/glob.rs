//! Glob-style matching of thread names.
//!
//! Syntax:
//!   `*`       any run of characters, the empty one included
//!   `?`       exactly one character
//!   `[abc]`   one character out of the list
//!   `[a-z]`   one character out of the range
//!   `[!abc]`  one character not in the list (`[^abc]` too)
//!   anything else matches itself (`.` included).
//! A `[` with no closing `]` stands for itself; `[]` matches no character.

use vstd::prelude::*;
use crate::text::chars_of;
use crate::text::chars_equal;

verus! {

// ---------------------------------------------------------------------------
// The meaning of a pattern
// ---------------------------------------------------------------------------

/// Whether `lo <= c <= hi` by code point.
pub open spec fn char_in_range(lo: char, hi: char, c: char) -> bool {
    (lo as u32) <= (c as u32) && (c as u32) <= (hi as u32)
}

/// Whether the items of a bracket class, read from position `i` of `p` up to
/// the closing `]`, cover `c`. An item is `x` or a range `x-y` (where `y`
/// is not `]`).
pub open spec fn class_items_hit(p: Seq<char>, i: int, c: char) -> bool
    decreases p.len() - i,
{
    if i < 0 || i >= p.len() || p[i] == ']' {
        false
    } else if i + 2 < p.len() && p[i + 1] == '-' && p[i + 2] != ']' {
        char_in_range(p[i], p[i + 2], c) || class_items_hit(p, i + 3, c)
    } else {
        p[i] == c || class_items_hit(p, i + 1, c)
    }
}

/// Where the reading of class items that starts at `i` stops: at the first
/// `]` that closes the class, or at the end of `p`.
pub open spec fn class_items_end(p: Seq<char>, i: int) -> int
    decreases p.len() - i,
{
    if i < 0 || i >= p.len() || p[i] == ']' {
        i
    } else if i + 2 < p.len() && p[i + 1] == '-' && p[i + 2] != ']' {
        class_items_end(p, i + 3)
    } else {
        class_items_end(p, i + 1)
    }
}

/// Whether the bracket class opened at `i` is negated (`[!` or `[^`).
pub open spec fn class_negated(p: Seq<char>, i: int) -> bool {
    i + 1 < p.len() && (p[i + 1] == '!' || p[i + 1] == '^')
}

/// Where the items of the bracket class opened at `i` begin.
pub open spec fn class_body(p: Seq<char>, i: int) -> int {
    if class_negated(p, i) {
        i + 2
    } else {
        i + 1
    }
}

/// Whether the `[` at `i` has a closing `]`.
pub open spec fn class_closed(p: Seq<char>, i: int) -> bool {
    class_items_end(p, class_body(p, i)) < p.len()
}

/// Whether the single-character token at position `i` of `p` (not a `*`)
/// accepts `c`.
pub open spec fn token_matches(p: Seq<char>, i: int, c: char) -> bool {
    if p[i] == '[' {
        if class_closed(p, i) {
            let body = class_body(p, i);
            if class_items_end(p, body) == body {
                false
            } else {
                class_items_hit(p, body, c) != class_negated(p, i)
            }
        } else {
            c == '['
        }
    } else if p[i] == '?' {
        true
    } else {
        p[i] == c
    }
}

/// Where the token that starts at position `i` of `p` ends.
pub open spec fn token_next(p: Seq<char>, i: int) -> int {
    if p[i] == '[' && class_closed(p, i) {
        class_items_end(p, class_body(p, i)) + 1
    } else {
        i + 1
    }
}

/// Whether the pattern `p`, read from position `pi`, matches the text `t`
/// from position `ti` to its end.
pub open spec fn matches_from(p: Seq<char>, pi: int, t: Seq<char>, ti: int) -> bool
    decreases t.len() - ti, p.len() - pi,
{
    if pi < 0 || ti < 0 || ti > t.len() {
        false
    } else if pi >= p.len() {
        ti == t.len()
    } else if p[pi] == '*' {
        matches_from(p, pi + 1, t, ti) || (ti < t.len() && matches_from(p, pi, t, ti + 1))
    } else {
        ti < t.len() && token_matches(p, pi, t[ti]) && matches_from(
            p,
            token_next(p, pi),
            t,
            ti + 1,
        )
    }
}

/// Whether the pattern `p` matches the whole text `t`.
pub open spec fn glob_spec(p: Seq<char>, t: Seq<char>) -> bool {
    matches_from(p, 0, t, 0)
}

/// Whether `p` holds none of the characters `*`, `?` and `[`.
pub open spec fn is_literal(p: Seq<char>) -> bool {
    forall|i: int| 0 <= i < p.len() ==> #[trigger] p[i] != '*' && p[i] != '?' && p[i] != '['
}

// ---------------------------------------------------------------------------
// Lemmas on the meaning
// ---------------------------------------------------------------------------

proof fn lemma_class_items_end_bounds(p: Seq<char>, i: int)
    requires
        0 <= i,
    ensures
        i <= class_items_end(p, i),
        class_items_end(p, i) <= p.len() || class_items_end(p, i) == i,
        class_items_end(p, i) < p.len() ==> p[class_items_end(p, i)] == ']',
    decreases p.len() - i,
{
    if i < 0 || i >= p.len() || p[i] == ']' {
    } else if i + 2 < p.len() && p[i + 1] == '-' && p[i + 2] != ']' {
        lemma_class_items_end_bounds(p, i + 3);
    } else {
        lemma_class_items_end_bounds(p, i + 1);
    }
}

proof fn lemma_token_next_bounds(p: Seq<char>, i: int)
    requires
        0 <= i < p.len(),
    ensures
        i < token_next(p, i) <= p.len(),
{
    lemma_class_items_end_bounds(p, class_body(p, i));
}

/// A `*` at `s` matches from `a` exactly when the rest of the pattern
/// matches from some position at or after `a`.
proof fn lemma_star(p: Seq<char>, s: int, t: Seq<char>, a: int)
    requires
        0 <= s < p.len(),
        p[s] == '*',
        0 <= a <= t.len(),
    ensures
        matches_from(p, s, t, a) <==> exists|k: int|
            a <= k <= t.len() && #[trigger] matches_from(p, s + 1, t, k),
    decreases t.len() - a,
{
    assert(matches_from(p, s, t, a) == (matches_from(p, s + 1, t, a) || (a < t.len()
        && matches_from(p, s, t, a + 1))));
    if matches_from(p, s + 1, t, a) {
        assert(a <= a <= t.len() && matches_from(p, s + 1, t, a));
    }
    if a < t.len() {
        lemma_star(p, s, t, a + 1);
        if matches_from(p, s, t, a + 1) {
            let k = choose|k: int| a + 1 <= k <= t.len() && #[trigger] matches_from(p, s + 1, t, k);
            assert(a <= k <= t.len() && matches_from(p, s + 1, t, k));
        }
        if exists|k: int| a <= k <= t.len() && #[trigger] matches_from(p, s + 1, t, k) {
            let k = choose|k: int| a <= k <= t.len() && #[trigger] matches_from(p, s + 1, t, k);
            if k > a {
                assert(a + 1 <= k <= t.len() && matches_from(p, s + 1, t, k));
                assert(matches_from(p, s, t, a + 1));
            }
        }
    } else {
        if exists|k: int| a <= k <= t.len() && #[trigger] matches_from(p, s + 1, t, k) {
            let k = choose|k: int| a <= k <= t.len() && #[trigger] matches_from(p, s + 1, t, k);
            assert(k == a);
        }
    }
}

/// A `*` that matches from `a` matches from any earlier position too.
proof fn lemma_star_earlier(p: Seq<char>, s: int, t: Seq<char>, a: int, b: int)
    requires
        0 <= s < p.len(),
        p[s] == '*',
        0 <= b <= a <= t.len(),
        matches_from(p, s, t, a),
    ensures
        matches_from(p, s, t, b),
{
    lemma_star(p, s, t, a);
    lemma_star(p, s, t, b);
    let k = choose|k: int| a <= k <= t.len() && #[trigger] matches_from(p, s + 1, t, k);
    assert(b <= k <= t.len() && matches_from(p, s + 1, t, k));
}

/// Two suffixes from `i` are equal exactly when their first characters and
/// the suffixes from `i + 1` are.
proof fn lemma_subrange_step(a: Seq<char>, b: Seq<char>, i: int)
    requires
        0 <= i < a.len(),
        i < b.len(),
    ensures
        (a.subrange(i, a.len() as int) =~= b.subrange(i, b.len() as int)) <==> (a[i] == b[i]
            && a.subrange(i + 1, a.len() as int) =~= b.subrange(i + 1, b.len() as int)),
{
    let x = a.subrange(i, a.len() as int);
    let y = b.subrange(i, b.len() as int);
    let x1 = a.subrange(i + 1, a.len() as int);
    let y1 = b.subrange(i + 1, b.len() as int);
    if x =~= y {
        assert(x[0] == a[i]);
        assert(y[0] == b[i]);
        assert forall|j: int| 0 <= j < x1.len() implies x1[j] == y1[j] by {
            assert(x1[j] == x[j + 1]);
            assert(y1[j] == y[j + 1]);
        }
        assert(x1 =~= y1);
    }
    if a[i] == b[i] && x1 =~= y1 {
        assert forall|j: int| 0 <= j < x.len() implies x[j] == y[j] by {
            if j > 0 {
                assert(x[j] == x1[j - 1]);
                assert(y[j] == y1[j - 1]);
            }
        }
        assert(x =~= y);
    }
}

/// A pattern without `*`, `?` and `[` matches exactly the text equal to it,
/// read from position `i` of both.
proof fn lemma_literal_from(p: Seq<char>, t: Seq<char>, i: int)
    requires
        is_literal(p),
        0 <= i <= p.len(),
        i <= t.len(),
    ensures
        matches_from(p, i, t, i) <==> p.subrange(i, p.len() as int) =~= t.subrange(
            i,
            t.len() as int,
        ),
    decreases p.len() - i,
{
    if i < p.len() {
        assert(p[i] != '*' && p[i] != '?' && p[i] != '[');
        if i < t.len() {
            lemma_literal_from(p, t, i + 1);
            lemma_subrange_step(p, t, i);
        } else {
            assert(p.subrange(i, p.len() as int).len() > 0);
        }
    } else {
        if i < t.len() {
            assert(t.subrange(i, t.len() as int).len() > 0);
        }
    }
}

/// A pattern that begins with `k` single-character tokens (literal
/// characters or `?`) that accept the first `k` characters of a text, and
/// then has a literal character that the text does not have at position
/// `k` (or the text ends there), rejects that text.
pub proof fn lemma_literal_mismatch(p: Seq<char>, t: Seq<char>, k: int)
    requires
        0 <= k < p.len(),
        k <= t.len(),
        forall|i: int| 0 <= i <= k ==> #[trigger] p[i] != '*' && p[i] != '[',
        forall|i: int| 0 <= i < k ==> #[trigger] p[i] == '?' || p[i] == t[i],
        p[k] != '?',
        k == t.len() || p[k] != t[k],
    ensures
        !glob_spec(p, t),
{
    lemma_literal_mismatch_from(p, t, k, 0);
}

proof fn lemma_literal_mismatch_from(p: Seq<char>, t: Seq<char>, k: int, i: int)
    requires
        0 <= i <= k < p.len(),
        k <= t.len(),
        forall|j: int| 0 <= j <= k ==> #[trigger] p[j] != '*' && p[j] != '[',
        forall|j: int| 0 <= j < k ==> #[trigger] p[j] == '?' || p[j] == t[j],
        p[k] != '?',
        k == t.len() || p[k] != t[k],
    ensures
        !matches_from(p, i, t, i),
    decreases k - i,
{
    assert(p[i] != '*' && p[i] != '[');
    if i < k {
        assert(p[i] == '?' || p[i] == t[i]);
        lemma_literal_mismatch_from(p, t, k, i + 1);
    }
}

/// A pattern that begins with a class of two characters, `[xy]`, rejects a
/// text that does not begin with `x` or `y`.
pub proof fn lemma_pair_class_rejects(p: Seq<char>, t: Seq<char>)
    requires
        p.len() >= 4,
        p[0] == '[',
        p[1] != '!' && p[1] != '^' && p[1] != ']',
        p[2] != '-' && p[2] != ']',
        p[3] == ']',
        t.len() > 0 ==> t[0] != p[1] && t[0] != p[2],
    ensures
        !glob_spec(p, t),
{
    assert(!class_negated(p, 0));
    assert(class_items_end(p, 3) == 3);
    assert(class_items_end(p, 2) == 3);
    assert(class_items_end(p, 1) == 3);
    if t.len() > 0 {
        assert(!class_items_hit(p, 3, t[0]));
        assert(!class_items_hit(p, 2, t[0]));
        assert(!class_items_hit(p, 1, t[0]));
        assert(!token_matches(p, 0, t[0]));
    }
}

/// A run of `m` literal characters of the pattern, from `pi` on, can only
/// be matched by the same characters of the text, from `ti` on.
proof fn lemma_literal_run(p: Seq<char>, pi: int, t: Seq<char>, ti: int, m: int)
    requires
        0 <= pi,
        0 <= m,
        pi + m <= p.len(),
        forall|i: int| pi <= i < pi + m ==> #[trigger] p[i] != '*' && p[i] != '?' && p[i] != '[',
        matches_from(p, pi, t, ti),
    ensures
        0 <= ti,
        ti + m <= t.len(),
        t.subrange(ti, ti + m) =~= p.subrange(pi, pi + m),
        matches_from(p, pi + m, t, ti + m),
    decreases m,
{
    if m > 0 {
        assert(p[pi] != '*' && p[pi] != '?' && p[pi] != '[');
        assert(token_next(p, pi) == pi + 1);
        lemma_literal_run(p, pi + 1, t, ti + 1, m - 1);
        assert(t[ti] == p[pi]);
        assert forall|k: int| 0 <= k < m implies #[trigger] t.subrange(ti, ti + m)[k]
            == p.subrange(pi, pi + m)[k] by {
            if k > 0 {
                assert(t.subrange(ti + 1, ti + m)[k - 1] == p.subrange(pi + 1, pi + m)[k - 1]);
            }
        }
    }
}

// ---------------------------------------------------------------------------
// Laws
// ---------------------------------------------------------------------------

proof fn lemma_fixed_length_from(p: Seq<char>, t: Seq<char>, i: int)
    requires
        forall|j: int| 0 <= j < p.len() ==> #[trigger] p[j] != '*' && p[j] != '[',
        0 <= i <= p.len(),
        i <= t.len(),
    ensures
        matches_from(p, i, t, i) <==> (p.len() == t.len() && forall|j: int|
            i <= j < p.len() ==> #[trigger] p[j] == '?' || p[j] == t[j]),
    decreases p.len() - i,
{
    if i < p.len() {
        assert(p[i] != '*' && p[i] != '[');
        if i < t.len() {
            lemma_fixed_length_from(p, t, i + 1);
        }
    }
}

/// A pattern without `*` and `[` matches exactly the texts of its length
/// that agree with it wherever it does not hold `?`: `?` stands for any one
/// character, every other character for itself.
pub proof fn law_fixed_length_pattern(p: Seq<char>, t: Seq<char>)
    requires
        forall|j: int| 0 <= j < p.len() ==> #[trigger] p[j] != '*' && p[j] != '[',
    ensures
        glob_spec(p, t) <==> (p.len() == t.len() && forall|j: int|
            0 <= j < p.len() ==> #[trigger] p[j] == '?' || p[j] == t[j]),
{
    lemma_fixed_length_from(p, t, 0);
}

/// A text that `*x*` matches, for a literal `x`, holds `x` somewhere:
/// `*x*` is a substring test.
pub proof fn law_star_literal_contains(x: Seq<char>, t: Seq<char>)
    requires
        is_literal(x),
    ensures
        glob_spec(seq!['*'] + x + seq!['*'], t) ==> exists|k: int|
            0 <= k && k + x.len() <= t.len() && #[trigger] t.subrange(k, k + x.len()) == x,
{
    let p = seq!['*'] + x + seq!['*'];
    let m = x.len() as int;
    if glob_spec(p, t) {
        assert(p[0] == '*');
        lemma_star(p, 0, t, 0);
        let k = choose|k: int| 0 <= k <= t.len() && #[trigger] matches_from(p, 1, t, k);
        assert forall|i: int| 1 <= i < 1 + m implies #[trigger] p[i] != '*' && p[i] != '?' && p[i]
            != '[' by {
            assert(p[i] == x[i - 1]);
        }
        lemma_literal_run(p, 1, t, k, m);
        assert(p.subrange(1, 1 + m) =~= x);
        assert(t.subrange(k, k + m) == x);
    }
}

/// A text that `*` followed by a literal `suffix` matches ends with
/// `suffix`: `*suffix` is a suffix test.
pub proof fn law_star_literal_suffix(suffix: Seq<char>, t: Seq<char>)
    requires
        is_literal(suffix),
    ensures
        glob_spec(seq!['*'] + suffix, t) ==> suffix.is_suffix_of(t),
{
    let p = seq!['*'] + suffix;
    let m = suffix.len() as int;
    if glob_spec(p, t) {
        assert(p[0] == '*');
        lemma_star(p, 0, t, 0);
        let k = choose|k: int| 0 <= k <= t.len() && #[trigger] matches_from(p, 1, t, k);
        assert forall|i: int| 1 <= i < 1 + m implies #[trigger] p[i] != '*' && p[i] != '?' && p[i]
            != '[' by {
            assert(p[i] == suffix[i - 1]);
        }
        lemma_literal_run(p, 1, t, k, m);
        assert(k + m == t.len());
        assert(p.subrange(1, 1 + m) =~= suffix);
    }
}

/// A pattern with no wildcard character (`*`, `?`, `[`) matches a text
/// exactly when the two are equal: every other character is literal.
pub proof fn law_literal_pattern_is_equality(p: Seq<char>, t: Seq<char>)
    requires
        is_literal(p),
    ensures
        glob_spec(p, t) <==> p == t,
{
    if t.len() == 0 && p.len() > 0 {
        assert(p[0] != '*');
        assert(!glob_spec(p, t));
    } else {
        lemma_literal_from(p, t, 0);
        assert(p.subrange(0, p.len() as int) =~= p);
        assert(t.subrange(0, t.len() as int) =~= t);
    }
}

/// `*` matches every text, the empty one included.
pub proof fn law_star_matches_everything(t: Seq<char>)
    ensures
        glob_spec(seq!['*'], t),
{
    let p = seq!['*'];
    assert(matches_from(p, 1, t, t.len() as int));
    lemma_star(p, 0, t, 0);
}

/// `?` matches exactly the texts of one character.
pub proof fn law_question_mark_is_one_char(t: Seq<char>)
    ensures
        glob_spec(seq!['?'], t) <==> t.len() == 1,
{
    let p = seq!['?'];
    assert(p[0] == '?');
    assert(token_next(p, 0) == 1);
    if t.len() > 0 {
        assert(token_matches(p, 0, t[0]));
        assert(matches_from(p, 0, t, 0) == matches_from(p, 1, t, 1));
    }
}

/// A pattern that ends in `*` matches every text that begins with what
/// stands before the `*`, when that part has no wildcard: `prefix*` is a
/// prefix test.
pub proof fn law_literal_prefix_star(prefix: Seq<char>, t: Seq<char>)
    requires
        is_literal(prefix),
    ensures
        glob_spec(prefix.push('*'), t) <==> (prefix.len() <= t.len() && t.subrange(
            0,
            prefix.len() as int,
        ) == prefix),
    decreases prefix.len(),
{
    let p = prefix.push('*');
    let n = prefix.len() as int;
    assert forall|i: int| 0 <= i <= n && i <= t.len() implies (matches_from(p, i, t, i) <==> (n
        <= t.len() && t.subrange(i, n) =~= prefix.subrange(i, n))) by {
        lemma_literal_prefix_from(prefix, t, i);
    }
    assert(prefix.subrange(0, n) =~= prefix);
}

proof fn lemma_literal_prefix_from(prefix: Seq<char>, t: Seq<char>, i: int)
    requires
        is_literal(prefix),
        0 <= i <= prefix.len(),
        i <= t.len(),
    ensures
        matches_from(prefix.push('*'), i, t, i) <==> (prefix.len() <= t.len() && t.subrange(
            i,
            prefix.len() as int,
        ) =~= prefix.subrange(i, prefix.len() as int)),
    decreases prefix.len() - i,
{
    let p = prefix.push('*');
    let n = prefix.len() as int;
    if i < n {
        assert(p[i] == prefix[i]);
        assert(prefix[i] != '*' && prefix[i] != '?' && prefix[i] != '[');
        if i < t.len() {
            lemma_literal_prefix_from(prefix, t, i + 1);
            if n <= t.len() {
                lemma_subrange_step(t.subrange(0, n), prefix, i);
                assert(t.subrange(0, n).subrange(i, n) =~= t.subrange(i, n));
                assert(t.subrange(0, n).subrange(i + 1, n) =~= t.subrange(i + 1, n));
            }
        }
    } else {
        assert(p[n] == '*');
        assert(matches_from(p, n + 1, t, t.len() as int));
        lemma_star(p, n, t, i);
        assert(t.subrange(i, n) =~= prefix.subrange(i, n));
    }
}

/// Class items read from position `i` of `p` are those read from the start
/// of the suffix of `p` at `i`.
proof fn lemma_class_items_suffix(p: Seq<char>, i: int, c: char)
    requires
        0 <= i <= p.len(),
    ensures
        class_items_hit(p, i, c) == class_items_hit(p.subrange(i, p.len() as int), 0, c),
        class_items_end(p, i) == i + class_items_end(p.subrange(i, p.len() as int), 0),
    decreases p.len() - i,
{
    let q = p.subrange(i, p.len() as int);
    if i < p.len() && p[i] != ']' {
        let step = if i + 2 < p.len() && p[i + 1] == '-' && p[i + 2] != ']' { 3int } else { 1int };
        lemma_class_items_suffix(p, i + step, c);
        lemma_class_items_suffix(q, step, c);
        assert(q.subrange(step, q.len() as int) =~= p.subrange(i + step, p.len() as int));
    }
}

/// In `b` followed by `]`, where `b` holds no `]`, the items run to that `]`.
proof fn lemma_class_items_end_closed(q: Seq<char>, n: int, i: int)
    requires
        q.len() == n + 1,
        q[n] == ']',
        forall|j: int| 0 <= j < n ==> #[trigger] q[j] != ']',
        0 <= i <= n,
    ensures
        class_items_end(q, i) == n,
    decreases n - i,
{
    if i < n {
        if i + 2 < q.len() && q[i + 1] == '-' && q[i + 2] != ']' {
            lemma_class_items_end_closed(q, n, i + 3);
        } else {
            lemma_class_items_end_closed(q, n, i + 1);
        }
    }
}

/// A bracket range `[x-y]` accepts exactly the characters from `x` to `y`
/// by code point, both bounds included: `[0-9]` accepts `0` and `9`,
/// `[a-z]` accepts `a` and `z`. The lower bound must not be one of the
/// characters that change the meaning of the class (`!`, `^`, `]`), and the
/// upper bound must not be the closing `]`.
pub proof fn law_bracket_range_inclusive(x: char, y: char, c: char)
    requires
        x != '!' && x != '^' && x != ']',
        y != ']',
    ensures
        glob_spec(seq!['[', x, '-', y, ']'], seq![c]) <==> ((x as u32) <= (c as u32) && (c as u32)
            <= (y as u32)),
{
    let p = seq!['[', x, '-', y, ']'];
    let t = seq![c];
    assert(p[0] == '[' && p[1] == x && p[2] == '-' && p[3] == y && p[4] == ']');
    assert(!class_negated(p, 0));
    assert(class_body(p, 0) == 1);
    assert(class_items_end(p, 4) == 4);
    assert(class_items_end(p, 1) == 4);
    assert(!class_items_hit(p, 4, c));
    assert(class_items_hit(p, 1, c) == char_in_range(x, y, c));
    assert(class_closed(p, 0));
    assert(token_next(p, 0) == 5);
    assert(matches_from(p, 5, t, 1));
    assert(matches_from(p, 0, t, 0) == token_matches(p, 0, c));
}

/// `[!...]` (and `[^...]`) accepts a character exactly when `[...]`, with
/// the same items, does not; `items` is not empty, holds no `]`, and does
/// not itself begin with `!` or `^`.
pub proof fn law_negated_class(neg: char, items: Seq<char>, c: char)
    requires
        neg == '!' || neg == '^',
        items.len() > 0,
        items[0] != '!' && items[0] != '^',
        forall|j: int| 0 <= j < items.len() ==> #[trigger] items[j] != ']',
    ensures
        glob_spec(seq!['[', neg] + items + seq![']'], seq![c]) == !glob_spec(
            seq!['['] + items + seq![']'],
            seq![c],
        ),
{
    let n = items.len() as int;
    let q = items + seq![']'];
    let pn = seq!['[', neg] + items + seq![']'];
    let pp = seq!['['] + items + seq![']'];
    let t = seq![c];
    assert(pn.subrange(2, pn.len() as int) =~= q);
    assert(pp.subrange(1, pp.len() as int) =~= q);
    assert forall|j: int| 0 <= j < n implies #[trigger] q[j] != ']' by {
        assert(q[j] == items[j]);
    }
    lemma_class_items_end_closed(q, n, 0);
    lemma_class_items_suffix(pn, 2, c);
    lemma_class_items_suffix(pp, 1, c);
    assert(class_negated(pn, 0));
    assert(pp[1] == items[0]);
    assert(!class_negated(pp, 0));
    assert(class_items_end(pn, 2) == n + 2);
    assert(class_items_end(pp, 1) == n + 1);
    assert(token_next(pn, 0) == pn.len());
    assert(token_next(pp, 0) == pp.len());
    assert(matches_from(pn, pn.len() as int, t, 1));
    assert(matches_from(pp, pp.len() as int, t, 1));
    assert(pn[0] == '[' && pp[0] == '[');
}

/// Items with no `-` are single characters: the class read from `i` covers
/// `c` exactly when one of the items from `i` on is `c`.
proof fn lemma_class_list_hit(q: Seq<char>, n: int, i: int, c: char)
    requires
        q.len() == n + 1,
        q[n] == ']',
        forall|j: int| 0 <= j < n ==> #[trigger] q[j] != ']' && q[j] != '-',
        0 <= i <= n,
    ensures
        class_items_hit(q, i, c) <==> q.subrange(i, n).contains(c),
    decreases n - i,
{
    if i < n {
        assert(q[i] != ']' && q[i] != '-');
        if i + 1 < n {
            assert(q[i + 1] != '-');
        }
        lemma_class_list_hit(q, n, i + 1, c);
        let s = q.subrange(i, n);
        assert(s[0] == q[i]);
        assert(s.drop_first() =~= q.subrange(i + 1, n));
        if s.contains(c) {
            let k = choose|k: int| 0 <= k < s.len() && s[k] == c;
            if k > 0 {
                assert(s.drop_first()[k - 1] == c);
            }
        }
        let r = q.subrange(i + 1, n);
        if r.contains(c) {
            let k = choose|k: int| 0 <= k < r.len() && r[k] == c;
            assert(s[k + 1] == c);
        }
    } else {
        assert(q.subrange(i, n).len() == 0);
    }
}

/// A bracket list `[abc]` accepts exactly the characters listed (none of
/// them `]` or `-`, the first not `!` or `^`).
pub proof fn law_bracket_list(items: Seq<char>, c: char)
    requires
        items.len() > 0,
        items[0] != '!' && items[0] != '^',
        forall|j: int| 0 <= j < items.len() ==> #[trigger] items[j] != ']' && items[j] != '-',
    ensures
        glob_spec(seq!['['] + items + seq![']'], seq![c]) <==> items.contains(c),
{
    let n = items.len() as int;
    let q = items + seq![']'];
    let pp = seq!['['] + items + seq![']'];
    let t = seq![c];
    assert(pp.subrange(1, pp.len() as int) =~= q);
    assert forall|j: int| 0 <= j < n implies #[trigger] q[j] != ']' && q[j] != '-' by {
        assert(q[j] == items[j]);
    }
    lemma_class_items_end_closed(q, n, 0);
    lemma_class_list_hit(q, n, 0, c);
    assert(q.subrange(0, n) =~= items);
    lemma_class_items_suffix(pp, 1, c);
    assert(pp[1] == items[0]);
    assert(!class_negated(pp, 0));
    assert(class_items_end(pp, 1) == n + 1);
    assert(token_next(pp, 0) == pp.len());
    assert(matches_from(pp, pp.len() as int, t, 1));
    assert(pp[0] == '[');
}

/// A class read from `i` that `]` closes within `p` reads the same in `p`
/// followed by one more character that is not `]`.
proof fn lemma_class_items_extend_closed(p: Seq<char>, x: char, i: int, c: char)
    requires
        0 <= i,
        x != ']',
        class_items_end(p, i) < p.len(),
    ensures
        class_items_end(p.push(x), i) == class_items_end(p, i),
        class_items_hit(p.push(x), i, c) == class_items_hit(p, i, c),
    decreases p.len() - i,
{
    let q = p.push(x);
    if i < p.len() && p[i] != ']' {
        assert(q[i] == p[i]);
        if i + 2 < p.len() && p[i + 1] == '-' && p[i + 2] != ']' {
            assert(q[i + 1] == p[i + 1] && q[i + 2] == p[i + 2]);
            lemma_class_items_extend_closed(p, x, i + 3, c);
        } else {
            if i + 1 < p.len() {
                assert(q[i + 1] == p[i + 1]);
            }
            if i + 2 < p.len() {
                assert(q[i + 2] == p[i + 2]);
            }
            if i + 2 == p.len() && p[i + 1] == '-' {
                assert(class_items_end(p, i + 1) == class_items_end(p, i + 2));
            }
            lemma_class_items_extend_closed(p, x, i + 1, c);
        }
    }
}

/// A class read from `i` that nothing closes within `p` meets no `]`.
proof fn lemma_class_unclosed_no_bracket(p: Seq<char>, i: int)
    requires
        0 <= i,
        class_items_end(p, i) >= p.len(),
    ensures
        forall|j: int| i <= j < p.len() ==> p[j] != ']',
    decreases p.len() - i,
{
    if i < p.len() && p[i] != ']' {
        if i + 2 < p.len() && p[i + 1] == '-' && p[i + 2] != ']' {
            lemma_class_unclosed_no_bracket(p, i + 3);
        } else {
            lemma_class_unclosed_no_bracket(p, i + 1);
        }
    }
}

/// A class read from `i` in a text with no `]` from `i` on runs to its end.
proof fn lemma_class_no_bracket_unclosed(p: Seq<char>, i: int)
    requires
        0 <= i <= p.len(),
        forall|j: int| i <= j < p.len() ==> p[j] != ']',
    ensures
        class_items_end(p, i) == p.len(),
    decreases p.len() - i,
{
    if i < p.len() {
        if i + 2 < p.len() && p[i + 1] == '-' && p[i + 2] != ']' {
            lemma_class_no_bracket_unclosed(p, i + 3);
        } else {
            lemma_class_no_bracket_unclosed(p, i + 1);
        }
    }
}

/// A token of `p` reads the same in `p` followed by `*`.
proof fn lemma_token_extend_star(p: Seq<char>, i: int, c: char)
    requires
        0 <= i < p.len(),
    ensures
        token_matches(p.push('*'), i, c) == token_matches(p, i, c),
        token_next(p.push('*'), i) == token_next(p, i),
{
    let q = p.push('*');
    assert(q[i] == p[i]);
    if p[i] == '[' {
        if i + 1 < p.len() {
            assert(q[i + 1] == p[i + 1]);
        }
        assert(class_negated(q, i) == class_negated(p, i));
        let body = class_body(p, i);
        assert(class_body(q, i) == body);
        if class_closed(p, i) {
            lemma_class_items_extend_closed(p, '*', body, c);
        } else {
            lemma_class_unclosed_no_bracket(p, body);
            assert forall|j: int| body <= j < q.len() implies q[j] != ']' by {
                if j < p.len() {
                    assert(q[j] == p[j]);
                }
            }
            if body <= q.len() {
                lemma_class_no_bracket_unclosed(q, body);
            }
        }
    }
}

proof fn lemma_star_suffix_from(p: Seq<char>, pi: int, t: Seq<char>, ti: int, s: Seq<char>)
    requires
        0 <= pi <= p.len(),
        matches_from(p, pi, t, ti),
    ensures
        matches_from(p.push('*'), pi, t + s, ti),
    decreases t.len() - ti, p.len() - pi,
{
    let q = p.push('*');
    let ts = t + s;
    if pi >= p.len() {
        assert(pi == p.len() && ti == t.len());
        assert(q[pi] == '*');
        assert(matches_from(q, q.len() as int, ts, ts.len() as int));
        lemma_star(q, pi, ts, ti);
        assert(ti <= ts.len() <= ts.len() && matches_from(q, pi + 1, ts, ts.len() as int));
    } else if p[pi] == '*' {
        assert(q[pi] == '*');
        if matches_from(p, pi + 1, t, ti) {
            lemma_star_suffix_from(p, pi + 1, t, ti, s);
        } else {
            lemma_star_suffix_from(p, pi, t, ti + 1, s);
        }
    } else {
        assert(ts[ti] == t[ti]);
        assert(q[pi] == p[pi]);
        lemma_token_extend_star(p, pi, t[ti]);
        lemma_token_next_bounds(p, pi);
        lemma_star_suffix_from(p, token_next(p, pi), t, ti + 1, s);
    }
}

/// A trailing `*` matches any extension: when `p` matches `t`, the pattern
/// `p` followed by `*` matches `t` followed by anything, nothing included.
pub proof fn law_trailing_star_extends(p: Seq<char>, t: Seq<char>, s: Seq<char>)
    requires
        glob_spec(p, t),
    ensures
        glob_spec(p.push('*'), t + s),
{
    lemma_star_suffix_from(p, 0, t, 0, s);
}

// ---------------------------------------------------------------------------
// Bracket classes
// ---------------------------------------------------------------------------

/// One entry of a bracket class.
#[derive(Debug, Clone, Copy)]
pub enum ClassItem {
    Single(char),
    Range(char, char),
}

impl ClassItem {
    pub open spec fn hits(self, c: char) -> bool {
        match self {
            ClassItem::Single(x) => x == c,
            ClassItem::Range(a, b) => char_in_range(a, b, c),
        }
    }
}

/// A parsed bracket class.
#[derive(Debug)]
pub struct CharClass {
    pub negate: bool,
    pub items: Vec<ClassItem>,
}

/// Whether one of `items` covers `c`.
pub open spec fn items_hit(items: Seq<ClassItem>, c: char) -> bool {
    exists|j: int| 0 <= j < items.len() && #[trigger] items[j].hits(c)
}

/// The class item that starts at position `i` of `p`.
pub open spec fn class_item_at(p: Seq<char>, i: int) -> ClassItem {
    if i + 2 < p.len() && p[i + 1] == '-' && p[i + 2] != ']' {
        ClassItem::Range(p[i], p[i + 2])
    } else {
        ClassItem::Single(p[i])
    }
}

/// How many characters the class item at position `i` of `p` takes.
pub open spec fn class_item_len(p: Seq<char>, i: int) -> int {
    if i + 2 < p.len() && p[i + 1] == '-' && p[i + 2] != ']' {
        3
    } else {
        1
    }
}

proof fn lemma_class_item_step(p: Seq<char>, i: int)
    requires
        0 <= i < p.len(),
        p[i] != ']',
    ensures
        forall|c: char|
            #[trigger] class_items_hit(p, i, c) == (class_item_at(p, i).hits(c) || class_items_hit(
                p,
                i + class_item_len(p, i),
                c,
            )),
        class_items_end(p, i) == class_items_end(p, i + class_item_len(p, i)),
{
}

proof fn lemma_items_push(items: Seq<ClassItem>, item: ClassItem, c: char)
    ensures
        items_hit(items.push(item), c) == (items_hit(items, c) || item.hits(c)),
{
    let q = items.push(item);
    if items_hit(q, c) {
        let j = choose|j: int| 0 <= j < q.len() && #[trigger] q[j].hits(c);
        if j < items.len() {
            assert(items[j] == q[j]);
        }
    }
    if items_hit(items, c) {
        let j = choose|j: int| 0 <= j < items.len() && #[trigger] items[j].hits(c);
        assert(q[j] == items[j]);
    }
    if item.hits(c) {
        assert(q[items.len() as int] == item);
    }
}

impl CharClass {
    /// Whether the class accepts `c`.
    pub open spec fn accepts(&self, c: char) -> bool {
        items_hit(self.items@, c) != self.negate
    }

    /// Whether the class accepts `c`.
    pub fn matches(&self, c: char) -> (res: bool)
        ensures
            res == self.accepts(c),
    {
        let mut hit = false;
        let mut j: usize = 0;
        while j < self.items.len()
            invariant
                j <= self.items.len(),
                hit == exists|k: int| 0 <= k < j && #[trigger] self.items@[k].hits(c),
            decreases self.items.len() - j,
        {
            let h = match self.items[j] {
                ClassItem::Single(x) => x == c,
                ClassItem::Range(a, b) => (a as u32) <= (c as u32) && (c as u32) <= (b as u32),
            };
            if h {
                assert(self.items@[j as int].hits(c));
            }
            hit = hit || h;
            j = j + 1;
        }
        hit != self.negate
    }
}

/// Parses the bracket class opened at `p[pi] == '['`. Returns the class and
/// the position just after it. Where no `]` closes the class, the `[` is a
/// literal character and only it is consumed.
#[verifier::rlimit(50)]
pub fn parse_bracket(p: &Vec<char>, pi: usize) -> (res: (CharClass, usize))
    requires
        pi < p.len(),
        p@[pi as int] == '[',
    ensures
        res.1 == token_next(p@, pi as int),
        forall|c: char| #[trigger] res.0.accepts(c) == token_matches(p@, pi as int, c),
{
    let ghost ps = p@;
    let mut idx: usize = pi + 1;
    let mut negate = false;
    if idx < p.len() && (p[idx] == '!' || p[idx] == '^') {
        negate = true;
        idx = idx + 1;
    }
    let start_items = idx;
    assert(start_items == class_body(ps, pi as int));
    let mut items: Vec<ClassItem> = Vec::new();
    while idx < p.len() && p[idx] != ']'
        invariant
            ps == p@,
            start_items <= idx <= p.len(),
            class_items_end(ps, start_items as int) == class_items_end(ps, idx as int),
            forall|c: char|
                #[trigger] class_items_hit(ps, start_items as int, c) == (items_hit(items@, c)
                    || class_items_hit(ps, idx as int, c)),
            items@.len() == 0 <==> idx == start_items,
        decreases p.len() - idx,
    {
        let ghost old_items = items@;
        let ghost old_idx = idx as int;
        let is_range = p.len() - idx > 2 && p[idx + 1] == '-' && p[idx + 2] != ']';
        let item = if is_range {
            ClassItem::Range(p[idx], p[idx + 2])
        } else {
            ClassItem::Single(p[idx])
        };
        let step: usize = if is_range { 3 } else { 1 };
        proof {
            lemma_class_item_step(ps, old_idx);
        }
        assert(item == class_item_at(ps, old_idx));
        assert(step == class_item_len(ps, old_idx));
        idx = idx + step;
        items.push(item);
        proof {
            assert(items@ == old_items.push(item));
            assert forall|c: char|
                #[trigger] class_items_hit(ps, start_items as int, c) == (items_hit(items@, c)
                    || class_items_hit(ps, idx as int, c)) by {
                lemma_items_push(old_items, item, c);
            }
        }
    }
    proof {
        lemma_class_items_end_bounds(ps, start_items as int);
    }
    if idx < p.len() && p[idx] == ']' {
        if idx == start_items {
            let cls = CharClass { negate: false, items: Vec::new() };
            assert forall|c: char| #[trigger] cls.accepts(c) == token_matches(ps, pi as int, c) by {
                assert(!items_hit(cls.items@, c));
            }
            return (cls, idx + 1);
        }
        let cls = CharClass { negate, items };
        assert forall|c: char| #[trigger] cls.accepts(c) == token_matches(ps, pi as int, c) by {
            assert(class_items_hit(ps, start_items as int, c) == (items_hit(cls.items@, c)
                || class_items_hit(ps, idx as int, c)));
        }
        return (cls, idx + 1);
    }
    let mut lit: Vec<ClassItem> = Vec::new();
    lit.push(ClassItem::Single('['));
    let cls = CharClass { negate: false, items: lit };
    assert forall|c: char| #[trigger] cls.accepts(c) == token_matches(ps, pi as int, c) by {
        if c == '[' {
            assert(cls.items@[0].hits(c));
        }
    }
    (cls, pi + 1)
}


// ---------------------------------------------------------------------------
// Matching
// ---------------------------------------------------------------------------

/// Whether the pattern from `s` matches the text from some position in
/// `a ..= t.len()`.
pub open spec fn star_tail(p: Seq<char>, s: int, t: Seq<char>, a: int) -> bool {
    exists|k: int| a <= k <= t.len() && #[trigger] matches_from(p, s, t, k)
}

/// Whether `p` holds one of `*`, `?`, `[`.
fn has_wildcard(p: &Vec<char>) -> (res: bool)
    ensures
        res == !is_literal(p@),
{
    let mut i: usize = 0;
    while i < p.len()
        invariant
            i <= p.len(),
            forall|j: int| 0 <= j < i ==> #[trigger] p@[j] != '*' && p@[j] != '?' && p@[j] != '[',
        decreases p.len() - i,
    {
        if p[i] == '*' || p[i] == '?' || p[i] == '[' {
            assert(!(p@[i as int] != '*' && p@[i as int] != '?' && p@[i as int] != '['));
            return true;
        }
        i = i + 1;
    }
    false
}

/// Whether the text `t` matches the pattern `p`, both as characters.
fn glob_match_chars(p: &Vec<char>, t: &Vec<char>) -> (res: bool)
    ensures
        res == glob_spec(p@, t@),
{
    let ghost ps = p@;
    let ghost ts = t@;
    let ghost ans = glob_spec(ps, ts);
    let mut pi: usize = 0;
    let mut ti: usize = 0;
    let mut has_star = false;
    let mut star_pi: usize = 0;
    let mut star_ti: usize = 0;
    while ti < t.len()
        invariant
            ps == p@,
            ts == t@,
            ans == glob_spec(ps, ts),
            pi <= p.len(),
            ti <= t.len(),
            star_ti <= ti,
            has_star ==> star_pi < pi && ps[star_pi as int] == '*',
            ans == (matches_from(ps, pi as int, ts, ti as int) || (has_star && star_tail(
                ps,
                star_pi + 1,
                ts,
                star_ti + 1,
            ))),
            has_star ==> forall|k: int|
                star_ti < k <= ts.len() && #[trigger] matches_from(ps, star_pi + 1, ts, k) ==> k + (
                ti - star_ti) <= ts.len() && matches_from(ps, pi as int, ts, k + (ti - star_ti)),
        decreases ts.len() - star_ti, ts.len() - ti, ps.len() - pi,
    {
        if pi < p.len() && p[pi] == '*' {
            proof {
                lemma_star(ps, pi as int, ts, ti as int);
                if has_star && star_tail(ps, star_pi + 1, ts, star_ti + 1) {
                    let k = choose|k: int|
                        star_ti + 1 <= k <= ts.len() && #[trigger] matches_from(
                            ps,
                            star_pi + 1,
                            ts,
                            k,
                        );
                    lemma_star_earlier(ps, pi as int, ts, k + (ti - star_ti), ti as int);
                }
                if matches_from(ps, pi + 1, ts, ti as int) {
                    assert(ti <= ti <= ts.len() && matches_from(ps, pi + 1, ts, ti as int));
                }
                if star_tail(ps, pi + 1, ts, ti + 1) {
                    let k = choose|k: int|
                        ti + 1 <= k <= ts.len() && #[trigger] matches_from(ps, pi + 1, ts, k);
                    assert(ti <= k <= ts.len() && matches_from(ps, pi + 1, ts, k));
                }
                if matches_from(ps, pi as int, ts, ti as int) {
                    let k = choose|k: int|
                        ti <= k <= ts.len() && #[trigger] matches_from(ps, pi + 1, ts, k);
                    if k > ti {
                        assert(ti + 1 <= k <= ts.len() && matches_from(ps, pi + 1, ts, k));
                    }
                }
            }
            has_star = true;
            star_pi = pi;
            star_ti = ti;
            pi = pi + 1;
        } else {
            let mut matched = false;
            let mut next_pi = pi;
            if pi < p.len() {
                proof {
                    lemma_token_next_bounds(ps, pi as int);
                }
                if p[pi] == '[' {
                    let (class, np) = parse_bracket(p, pi);
                    if class.matches(t[ti]) {
                        matched = true;
                        next_pi = np;
                    }
                } else if p[pi] == '?' {
                    matched = true;
                    next_pi = pi + 1;
                } else if p[pi] == t[ti] {
                    matched = true;
                    next_pi = pi + 1;
                }
            }
            assert(matched ==> pi < p.len() && token_matches(ps, pi as int, ts[ti as int])
                && next_pi == token_next(ps, pi as int));
            assert(!matched ==> !matches_from(ps, pi as int, ts, ti as int));
            if matched {
                proof {
                    assert(matches_from(ps, pi as int, ts, ti as int) == matches_from(
                        ps,
                        next_pi as int,
                        ts,
                        ti + 1,
                    ));
                    if has_star {
                        assert forall|k: int|
                            star_ti < k <= ts.len() && #[trigger] matches_from(
                                ps,
                                star_pi + 1,
                                ts,
                                k,
                            ) implies k + (ti + 1 - star_ti) <= ts.len() && matches_from(
                            ps,
                            next_pi as int,
                            ts,
                            k + (ti + 1 - star_ti),
                        ) by {
                            assert(matches_from(ps, pi as int, ts, k + (ti - star_ti)));
                        }
                    }
                }
                pi = next_pi;
                ti = ti + 1;
            } else if has_star {
                proof {
                    let a = star_ti + 1;
                    if star_tail(ps, star_pi + 1, ts, a) {
                        let k = choose|k: int|
                            a <= k <= ts.len() && #[trigger] matches_from(ps, star_pi + 1, ts, k);
                        if k > a {
                            assert(a + 1 <= k <= ts.len() && matches_from(ps, star_pi + 1, ts, k));
                        }
                    }
                    if star_tail(ps, star_pi + 1, ts, a + 1) {
                        let k = choose|k: int|
                            a + 1 <= k <= ts.len() && #[trigger] matches_from(
                                ps,
                                star_pi + 1,
                                ts,
                                k,
                            );
                        assert(a <= k <= ts.len() && matches_from(ps, star_pi + 1, ts, k));
                    }
                    if matches_from(ps, star_pi + 1, ts, a) {
                        assert(a <= a <= ts.len() && matches_from(ps, star_pi + 1, ts, a));
                    }
                }
                star_ti = star_ti + 1;
                ti = star_ti;
                pi = star_pi + 1;
            } else {
                return false;
            }
        }
    }
    proof {
        if has_star && star_tail(ps, star_pi + 1, ts, star_ti + 1) {
            let k = choose|k: int|
                star_ti + 1 <= k <= ts.len() && #[trigger] matches_from(ps, star_pi + 1, ts, k);
            assert(k + (ti - star_ti) <= ts.len());
        }
    }
    while pi < p.len() && p[pi] == '*'
        invariant
            ps == p@,
            ts == t@,
            ti == ts.len(),
            pi <= p.len(),
            ans == matches_from(ps, pi as int, ts, ti as int),
        decreases p.len() - pi,
    {
        pi = pi + 1;
    }
    pi == p.len()
}

/// Whether `text` matches the glob `pattern` (`*`, `?`, `[...]`, `[!...]`).
pub fn glob_match(pattern: &str, text: &str) -> (res: bool)
    ensures
        res == glob_spec(pattern@, text@),
{
    let p = chars_of(pattern);
    let t = chars_of(text);
    if !has_wildcard(&p) {
        proof {
            law_literal_pattern_is_equality(p@, t@);
        }
        return chars_equal(&p, &t);
    }
    glob_match_chars(&p, &t)
}

} // verus!
