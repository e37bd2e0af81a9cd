//! Glob patterns over slash-separated paths.
//!
//! - `*` matches any sequence of characters within one path component
//! - `?` matches any single character within one path component
//! - `**` matches any sequence of characters, slashes included
//!
//! A `**` between slashes may stand for no component at all, and then the
//! slashes beside it are one: `src/**/a.rs` matches `src/a.rs` as well as
//! `src/x/y/a.rs`. It never makes up for a slash: `src/**` does not match
//! `srcfoo/a.rs`.

use vstd::prelude::*;

use crate::search::{
    contains, find, index_of, lemma_find_contains, lemma_find_from, lemma_split_concat,
    lemma_split_join, lemma_split_len, lemma_split_parts, lemma_split_whole, occurs_at, parts_by, parts_of, split,
    split_by,
};
use crate::text::{
    chars_of, slice, strip_both, strip_end, strip_start, stripped, stripped_end, stripped_start,
    views,
};

verus! {

/// Whether a pattern of `*`, `?` and plain characters matches a text whole.
pub open spec fn component_match(p: Seq<char>, t: Seq<char>) -> bool
    decreases p.len(),
{
    if p.len() == 0 {
        t.len() == 0
    } else if p[0] == '*' {
        exists|k: int| 0 <= k <= t.len() && component_match(p.skip(1), #[trigger] t.skip(k))
    } else {
        t.len() > 0 && (p[0] == '?' || p[0] == t[0]) && component_match(p.skip(1), t.skip(1))
    }
}

/// Whether a pattern without `**` matches a path, component by component.
pub open spec fn piece_match(p: Seq<char>, t: Seq<char>) -> bool {
    let ps = split(p, '/');
    let ts = split(t, '/');
    ps.len() == ts.len() && forall|i: int|
        0 <= i < ps.len() ==> #[trigger] component_match(ps[i], ts[i])
}

/// Whether a path component starts at a position of a path.
pub open spec fn opens(t: Seq<char>, i: int) -> bool {
    i == 0 || t[i - 1] == '/'
}

/// Whether a path component ends at a position of a path.
pub open spec fn closes(t: Seq<char>, i: int) -> bool {
    i == t.len() || t[i] == '/'
}

/// Whether the piece before the first `**` matches the path up to `a`. Where it
/// ends in a slash, a component ends there.
pub open spec fn starts(p: Seq<char>, t: Seq<char>, a: int) -> bool {
    &&& piece_match(strip_end(p, '/'), t.take(a))
    &&& ends_in_slash(p) ==> closes(t, a)
}

/// Whether the piece after the last `**` matches the path from `b` on. Where it
/// begins with a slash, a component starts there.
pub open spec fn finishes(p: Seq<char>, t: Seq<char>, b: int) -> bool {
    &&& piece_match(strip_start(p, '/'), t.skip(b))
    &&& begins_with_slash(p) ==> opens(t, b)
}

/// Whether a piece between two `**` matches `t[i..j]`. Where it begins with a
/// slash, a component starts there, and where it ends in one, a component ends
/// there. Slashes alone match at either side of a component.
pub open spec fn sits(p: Seq<char>, t: Seq<char>, i: int, j: int) -> bool {
    &&& piece_match(strip_both(p, '/'), t.subrange(i, j))
    &&& if strip_both(p, '/').len() == 0 {
        p.len() > 0 ==> opens(t, i) || closes(t, i)
    } else {
        &&& begins_with_slash(p) ==> opens(t, i)
        &&& ends_in_slash(p) ==> closes(t, j)
    }
}

pub open spec fn begins_with_slash(p: Seq<char>) -> bool {
    p.len() > 0 && p[0] == '/'
}

pub open spec fn ends_in_slash(p: Seq<char>) -> bool {
    p.len() > 0 && p.last() == '/'
}

/// Whether `pieces` match parts of `t[from..to]` that follow each other and do
/// not overlap.
pub open spec fn in_order(pieces: Seq<Seq<char>>, t: Seq<char>, from: int, to: int) -> bool
    decreases pieces.len(),
{
    if pieces.len() == 0 {
        from <= to
    } else {
        exists|i: int, j: int|
            from <= i <= j <= to && #[trigger] sits(pieces[0], t, i, j) && in_order(
                pieces.skip(1),
                t,
                j,
                to,
            )
    }
}

/// The two-character wildcard that crosses slashes.
pub open spec fn double_star() -> Seq<char> {
    seq!['*', '*']
}

/// Whether the pieces between the `**` of a pattern match a path: the first at
/// its start, the last at its end, and those between them in order.
pub open spec fn pieces_match(pieces: Seq<Seq<char>>, t: Seq<char>) -> bool {
    exists|a: int, b: int|
        0 <= a <= b <= t.len() && #[trigger] starts(pieces[0], t, a) && #[trigger] finishes(
            pieces.last(),
            t,
            b,
        ) && in_order(pieces.subrange(1, pieces.len() - 1), t, a, b)
}

/// Whether a glob pattern matches a path.
pub open spec fn glob_match(pattern: Seq<char>, path: Seq<char>) -> bool {
    if contains(pattern, double_star()) {
        pieces_match(split_by(pattern, double_star()), path)
    } else {
        piece_match(pattern, path)
    }
}

// --------------------------------------------------------------------- lemmas

proof fn lemma_in_order_widen(
    pieces: Seq<Seq<char>>,
    t: Seq<char>,
    from: int,
    to: int,
    from2: int,
    to2: int,
)
    requires
        in_order(pieces, t, from, to),
        from2 <= from,
        to <= to2,
    ensures
        in_order(pieces, t, from2, to2),
    decreases pieces.len(),
{
    if pieces.len() > 0 {
        let (i, j) = choose|i: int, j: int|
            from <= i <= j <= to && #[trigger] sits(pieces[0], t, i, j) && in_order(
                pieces.skip(1),
                t,
                j,
                to,
            );
        lemma_in_order_widen(pieces.skip(1), t, j, to, j, to2);
    }
}

proof fn lemma_component_plain(p: Seq<char>, t: Seq<char>)
    requires
        forall|i: int| 0 <= i < p.len() ==> #[trigger] p[i] != '*' && p[i] != '?',
    ensures
        component_match(p, t) <==> p == t,
    decreases p.len(),
{
    if p.len() == 0 {
        assert(t.len() == 0 ==> t =~= p);
    } else if t.len() > 0 {
        assert forall|i: int| 0 <= i < p.skip(1).len() implies #[trigger] p.skip(1)[i] != '*'
            && p.skip(1)[i] != '?' by {
            assert(p.skip(1)[i] == p[i + 1]);
        }
        lemma_component_plain(p.skip(1), t.skip(1));
        assert(p =~= seq![p[0]] + p.skip(1));
        assert(t =~= seq![t[0]] + t.skip(1));
    }
}

proof fn lemma_split_chars(s: Seq<char>, c: char, i: int, k: int)
    requires
        0 <= i < split(s, c).len(),
        0 <= k < split(s, c)[i].len(),
    ensures
        s.contains(split(s, c)[i][k]),
    decreases s.len(),
{
    if s.len() > 0 {
        let front = split(s.drop_last(), c);
        lemma_split_len(s.drop_last(), c);
        let parts = split(s, c);
        if parts[i][k] == s.last() {
            assert(s[s.len() - 1] == parts[i][k]);
        } else if i < front.len() && k < front[i].len() {
            lemma_split_chars(s.drop_last(), c, i, k);
            let j = choose|j: int| 0 <= j < s.drop_last().len() && s.drop_last()[j] == front[i][k];
            assert(s[j] == front[i][k]);
        }
    }
}

proof fn lemma_no_stars(pattern: Seq<char>)
    requires
        forall|i: int| 0 <= i < pattern.len() ==> #[trigger] pattern[i] != '*' && pattern[i] != '?',
    ensures
        !contains(pattern, double_star()),
{
    if contains(pattern, double_star()) {
        let i = choose|i: int| occurs_at(pattern, double_star(), i);
        assert(pattern.subrange(i, i + 2)[0] == pattern[i]);
    }
}

/// A pattern without wildcards matches itself and nothing else.
pub proof fn law_plain_pattern(pattern: Seq<char>, path: Seq<char>)
    requires
        forall|i: int| 0 <= i < pattern.len() ==> #[trigger] pattern[i] != '*' && pattern[i] != '?',
    ensures
        glob_match(pattern, path) <==> pattern == path,
{
    lemma_no_stars(pattern);
    let ps = split(pattern, '/');
    let ts = split(path, '/');
    assert forall|i: int| 0 <= i < ps.len() && i < ts.len() implies (#[trigger] component_match(
        ps[i],
        ts[i],
    ) <==> ps[i] == ts[i]) by {
        assert forall|k: int| 0 <= k < ps[i].len() implies #[trigger] ps[i][k] != '*' && ps[i][k]
            != '?' by {
            lemma_split_chars(pattern, '/', i, k);
            let j = choose|j: int| 0 <= j < pattern.len() && pattern[j] == ps[i][k];
            assert(pattern[j] == ps[i][k]);
        }
        lemma_component_plain(ps[i], ts[i]);
    }
    lemma_split_join(pattern, '/');
    lemma_split_join(path, '/');
    if piece_match(pattern, path) {
        assert forall|i: int| 0 <= i < ps.len() implies ps[i] == ts[i] by {
            assert(component_match(ps[i], ts[i]));
        }
        assert(ps =~= ts);
    }
}

/// A pattern of one component with no `**` matches no path that has a slash.
pub proof fn law_star_stops_at_slash(pattern: Seq<char>, path: Seq<char>)
    requires
        forall|i: int| 0 <= i < pattern.len() ==> #[trigger] pattern[i] != '/',
        !contains(pattern, double_star()),
        path.contains('/'),
    ensures
        !glob_match(pattern, path),
{
    lemma_split_whole(pattern, '/');
    if split(path, '/').len() == 1 {
        lemma_split_join(path, '/');
        lemma_split_parts(path, '/');
        assert(split(path, '/')[0] == path);
        let i = choose|i: int| 0 <= i < path.len() && path[i] == '/';
        assert(split(path, '/')[0][i] == '/');
    }
}

/// The pattern of a directory and what lies under it.
pub open spec fn under(dir: Seq<char>) -> Seq<char> {
    dir + seq!['/', '*', '*']
}

/// A directory with `/**` behind it matches the directory and what lies under it,
/// and nothing else.
pub proof fn law_directory_pattern(dir: Seq<char>, path: Seq<char>)
    requires
        dir.len() > 0,
        dir.last() != '/',
        forall|i: int| 0 <= i < dir.len() ==> #[trigger] dir[i] != '*' && dir[i] != '?',
    ensures
        glob_match(under(dir), path) <==> path == dir || (path.len() > dir.len() && path.take(
            dir.len() as int,
        ) == dir && path[dir.len() as int] == '/'),
{
    lemma_under(dir);
    lemma_split_directory(dir.push('/'), under(dir));
    lemma_directory_pieces(dir, path);
}

proof fn lemma_under(dir: Seq<char>)
    requires
        forall|i: int| 0 <= i < dir.len() ==> #[trigger] dir[i] != '*' && dir[i] != '?',
    ensures
        under(dir).len() == dir.push('/').len() + 2,
        under(dir).take(dir.push('/').len() as int) == dir.push('/'),
        under(dir).skip(dir.push('/').len() as int) == double_star(),
        forall|i: int| 0 <= i < dir.push('/').len() ==> #[trigger] dir.push('/')[i] != '*',
{
    assert(under(dir).take(dir.push('/').len() as int) =~= dir.push('/'));
    assert(under(dir).skip(dir.push('/').len() as int) =~= double_star());
}

proof fn lemma_directory_pieces(dir: Seq<char>, path: Seq<char>)
    requires
        dir.len() > 0,
        dir.last() != '/',
        forall|i: int| 0 <= i < dir.len() ==> #[trigger] dir[i] != '*' && dir[i] != '?',
    ensures
        pieces_match(seq![dir.push('/'), Seq::<char>::empty()], path) <==> path == dir || (
        path.len() > dir.len() && path.take(dir.len() as int) == dir && path[dir.len() as int]
            == '/'),
{
    let pieces = seq![dir.push('/'), Seq::<char>::empty()];
    let n = dir.len() as int;
    let b = path.len() as int;
    assert(pieces.subrange(1, pieces.len() - 1).len() == 0);
    if pieces_match(pieces, path) {
        let (x, y) = choose|x: int, y: int|
            0 <= x <= y <= path.len() && #[trigger] starts(pieces[0], path, x)
                && #[trigger] finishes(pieces.last(), path, y) && in_order(
                pieces.subrange(1, pieces.len() - 1),
                path,
                x,
                y,
            );
        lemma_starts_directory(dir, path, x);
        assert(x == n);
        if x == path.len() {
            assert(path.take(x) =~= path);
        }
    }
    if path == dir || (path.len() > n && path.take(n) == dir && path[n] == '/') {
        assert(dir.take(n) =~= dir);
        lemma_starts_directory(dir, path, n);
        lemma_finishes_empty(path);
        assert(starts(pieces[0], path, n));
        assert(finishes(pieces.last(), path, b));
        assert(in_order(pieces.subrange(1, pieces.len() - 1), path, n, b));
    }
}

proof fn lemma_finishes_empty(path: Seq<char>)
    ensures
        finishes(Seq::empty(), path, path.len() as int),
{
    lemma_empty_matches();
    assert(path.skip(path.len() as int) =~= Seq::<char>::empty());
}

proof fn lemma_starts_directory(dir: Seq<char>, path: Seq<char>, x: int)
    requires
        dir.len() > 0,
        dir.last() != '/',
        forall|i: int| 0 <= i < dir.len() ==> #[trigger] dir[i] != '*' && dir[i] != '?',
        0 <= x <= path.len(),
    ensures
        starts(dir.push('/'), path, x) <==> path.take(x) == dir && closes(path, x),
{
    let first = dir.push('/');
    assert(first.drop_last() =~= dir);
    assert(strip_end(dir, '/') == dir);
    assert(strip_end(first, '/') == dir);
    lemma_no_stars(dir);
    law_plain_pattern(dir, path.take(x));
    assert(glob_match(dir, path.take(x)) == piece_match(dir, path.take(x)));
}

proof fn lemma_find_stars(first: Seq<char>, p: Seq<char>)
    requires
        forall|i: int| 0 <= i < first.len() ==> #[trigger] first[i] != '*',
        p.len() == first.len() + 2,
        p.take(first.len() as int) == first,
        p.skip(first.len() as int) == double_star(),
    ensures
        find(p, double_star()) == Some(first.len() as int),
{
    let n = first.len() as int;
    assert(p.subrange(n, n + 2) =~= p.skip(n));
    assert(occurs_at(p, double_star(), n));
    assert forall|k: int| 0 <= k < n implies !#[trigger] occurs_at(p, double_star(), k) by {
        assert(p[k] == p.take(n)[k]);
        assert(p.subrange(k, k + 2)[0] == p[k]);
        assert(double_star()[0] == '*');
    }
    lemma_find_from(p, double_star(), 0);
}

proof fn lemma_split_directory(first: Seq<char>, p: Seq<char>)
    requires
        forall|i: int| 0 <= i < first.len() ==> #[trigger] first[i] != '*',
        p.len() == first.len() + 2,
        p.take(first.len() as int) == first,
        p.skip(first.len() as int) == double_star(),
    ensures
        contains(p, double_star()),
        split_by(p, double_star()) == seq![first, Seq::<char>::empty()],
{
    let e = Seq::<char>::empty();
    let n = first.len() as int;
    lemma_find_stars(first, p);
    lemma_find_contains(p, double_star());
    assert(p.skip(n + 2) =~= e);
    lemma_split_empty();
    assert(split_by(p, double_star()) == seq![first] + split_by(e, double_star()));
    assert(seq![first] + seq![e] =~= seq![first, e]);
}

proof fn lemma_split_empty()
    ensures
        split_by(Seq::<char>::empty(), double_star()) == seq![Seq::<char>::empty()],
{
    assert(find(Seq::<char>::empty(), double_star()) is None);
}

/// `**` alone matches every path.
pub proof fn law_double_star_matches_all(path: Seq<char>)
    ensures
        glob_match(double_star(), path),
{
    lemma_split_double_star();
    lemma_two_empty_pieces(path);
}

proof fn lemma_two_empty_pieces(path: Seq<char>)
    ensures
        pieces_match(seq![Seq::<char>::empty(), Seq::<char>::empty()], path),
{
    let e = Seq::<char>::empty();
    let pieces = seq![e, e];
    let b = path.len() as int;
    lemma_empty_matches();
    assert(path.take(0) =~= e);
    assert(path.skip(b) =~= e);
    assert(starts(pieces[0], path, 0));
    assert(finishes(pieces.last(), path, b));
    assert(pieces.subrange(1, pieces.len() - 1).len() == 0);
    assert(in_order(pieces.subrange(1, pieces.len() - 1), path, 0, b));
}

proof fn lemma_split_double_star()
    ensures
        contains(double_star(), double_star()),
        split_by(double_star(), double_star()) == seq![Seq::<char>::empty(), Seq::<char>::empty()],
{
    let p = double_star();
    let e = Seq::<char>::empty();
    assert(p.subrange(0, 2) =~= p);
    assert(occurs_at(p, p, 0));
    assert(find(p, p) == Some(0int));
    assert(p.take(0) =~= e);
    assert(p.skip(2) =~= e);
    assert(find(e, p) is None);
    assert(split_by(e, p) =~= seq![e]);
    assert(split_by(p, p) =~= seq![e] + seq![e]);
}

proof fn lemma_empty_matches()
    ensures
        strip_end(Seq::<char>::empty(), '/') == Seq::<char>::empty(),
        strip_start(Seq::<char>::empty(), '/') == Seq::<char>::empty(),
        piece_match(Seq::<char>::empty(), Seq::<char>::empty()),
{
}

// ------------------------------------------------ what the wildcards stand for

/// Whether a text holds neither wildcards nor slashes.
pub open spec fn is_word(s: Seq<char>) -> bool {
    forall|i: int| 0 <= i < s.len() ==> #[trigger] s[i] != '*' && s[i] != '?' && s[i] != '/'
}

/// Whether a text holds no wildcards.
pub open spec fn is_literal(s: Seq<char>) -> bool {
    forall|i: int| 0 <= i < s.len() ==> #[trigger] s[i] != '*' && s[i] != '?'
}

/// Whether `t` begins with `a` and ends with `b`, the two not overlapping.
pub open spec fn encloses(t: Seq<char>, a: Seq<char>, b: Seq<char>) -> bool {
    t.len() >= a.len() + b.len() && t.take(a.len() as int) == a && t.skip(t.len() - b.len()) == b
}

/// Two texts with `**` between them.
#[verifier::opaque]
pub open spec fn crossing(a: Seq<char>, b: Seq<char>) -> Seq<char> {
    a + seq!['*', '*'] + b
}

/// A star stands for any text without slashes: between two words it matches
/// whatever begins with the first and ends with the second.
pub proof fn law_star_takes_any_text(a: Seq<char>, b: Seq<char>, t: Seq<char>)
    requires
        is_word(a),
        is_word(b),
    ensures
        glob_match(a + seq!['*'] + b, t) <==> !t.contains('/') && encloses(t, a, b),
{
    let p = a + seq!['*'] + b;
    lemma_single_star(a, b);
    lemma_one_component(p, t);
    lemma_literal_prefix(a, seq!['*'] + b, t);
    assert(a + (seq!['*'] + b) =~= p);
    let rest = t.skip(a.len() as int);
    if t.len() >= a.len() {
        lemma_star_suffix(b, rest);
        if rest.len() >= b.len() {
            assert(rest.skip(rest.len() - b.len()) =~= t.skip(t.len() - b.len()));
        }
    }
}

/// A question mark stands for any one character but a slash.
pub proof fn law_question_mark_takes_one(a: Seq<char>, b: Seq<char>, t: Seq<char>)
    requires
        is_word(a),
        is_word(b),
    ensures
        glob_match(a + seq!['?'] + b, t) <==> !t.contains('/') && encloses(t, a, b) && t.len()
            == a.len() + b.len() + 1,
{
    let p = a + seq!['?'] + b;
    assert(!contains(p, double_star())) by {
        if contains(p, double_star()) {
            let i = choose|i: int| occurs_at(p, double_star(), i);
            assert(p.subrange(i, i + 2)[0] == p[i]);
            assert(double_star()[0] == '*');
        }
    }
    lemma_no_slash(a, '?', b);
    lemma_one_component(p, t);
    lemma_literal_prefix(a, seq!['?'] + b, t);
    assert(a + (seq!['?'] + b) =~= p);
    if t.len() >= a.len() {
        let rest = t.skip(a.len() as int);
        assert((seq!['?'] + b).skip(1) =~= b);
        lemma_component_plain(b, rest.skip(1));
        if rest.len() == b.len() + 1 {
            assert(rest.skip(1) =~= t.skip(t.len() - b.len()));
        }
    }
}

/// Patterns put together match texts put together, and nothing else.
pub proof fn law_patterns_concatenate(p: Seq<char>, q: Seq<char>, t: Seq<char>)
    ensures
        component_match(p + q, t) <==> exists|k: int|
            0 <= k <= t.len() && component_match(p, t.take(k)) && component_match(
                q,
                #[trigger] t.skip(k),
            ),
    decreases p.len(),
{
    if component_match(p + q, t) {
        let k = lemma_concat_splits(p, q, t);
        assert(component_match(q, t.skip(k)));
    }
    if exists|k: int|
        0 <= k <= t.len() && component_match(p, t.take(k)) && component_match(
            q,
            #[trigger] t.skip(k),
        ) {
        let k = choose|k: int|
            0 <= k <= t.len() && component_match(p, t.take(k)) && component_match(
                q,
                #[trigger] t.skip(k),
            );
        lemma_concat_joins(p, q, t.take(k), t.skip(k));
        assert(t.take(k) + t.skip(k) =~= t);
    }
}

/// A slash matches a slash: without `**`, a pattern matches a path exactly where
/// its first component matches the path's first and the rest the rest.
pub proof fn law_components_match_in_order(
    p: Seq<char>,
    q: Seq<char>,
    s: Seq<char>,
    t: Seq<char>,
)
    requires
        !p.contains('/'),
        !s.contains('/'),
        !contains(p + seq!['/'] + q, double_star()),
    ensures
        glob_match(p + seq!['/'] + q, s + seq!['/'] + t) <==> glob_match(p, s) && glob_match(q, t),
        forall|u: Seq<char>|
            !u.contains('/') ==> !#[trigger] glob_match(p + seq!['/'] + q, u),
{
    let whole = p + seq!['/'] + q;
    assert(!contains(p, double_star())) by {
        if contains(p, double_star()) {
            let i = choose|i: int| occurs_at(p, double_star(), i);
            assert(whole.subrange(i, i + 2) =~= p.subrange(i, i + 2));
            assert(occurs_at(whole, double_star(), i));
        }
    }
    assert(!contains(q, double_star())) by {
        if contains(q, double_star()) {
            let i = choose|i: int| occurs_at(q, double_star(), i);
            let n = p.len() + 1;
            assert(whole.subrange(n + i, n + i + 2) =~= q.subrange(i, i + 2));
            assert(occurs_at(whole, double_star(), n + i));
        }
    }
    lemma_split_concat(p, '/', q);
    lemma_split_concat(s, '/', t);
    lemma_no_occurrence(p, '/');
    lemma_no_occurrence(s, '/');
    lemma_split_whole(p, '/');
    lemma_split_whole(s, '/');
    lemma_split_len(q, '/');
    lemma_parts_match(p, q, s, t);
    assert forall|u: Seq<char>| !u.contains('/') implies !#[trigger] glob_match(whole, u) by {
        lemma_no_occurrence(u, '/');
        lemma_split_whole(u, '/');
    }
}

/// `**` stands for any text, slashes included: between two literal texts it
/// matches whatever begins with the first and ends with the second.
pub proof fn law_double_star_takes_any_text(a: Seq<char>, b: Seq<char>, t: Seq<char>)
    requires
        is_literal(a),
        is_literal(b),
        a.len() > 0 ==> a.last() != '/',
        b.len() > 0 ==> b[0] != '/',
    ensures
        glob_match(crossing(a, b), t) <==> encloses(t, a, b),
{
    lemma_two_pieces(a, b, t);
    if encloses(t, a, b) {
        assert(starts(a, t, a.len() as int)) by {
            lemma_starts_literal(a, t, a.len() as int);
        }
        assert(finishes(b, t, t.len() - b.len())) by {
            lemma_finishes_literal(b, t, t.len() - b.len());
        }
    }
    if exists|x: int, y: int|
        0 <= x <= y <= t.len() && #[trigger] starts(a, t, x) && #[trigger] finishes(b, t, y) {
        let (x, y) = choose|x: int, y: int|
            0 <= x <= y <= t.len() && #[trigger] starts(a, t, x) && #[trigger] finishes(b, t, y);
        lemma_starts_literal(a, t, x);
        lemma_finishes_literal(b, t, y);
        assert(t.take(x).len() == x);
        assert(t.skip(y).len() == t.len() - y);
    }
}

/// `**/` before a literal path matches that path by itself, and wherever a
/// directory leads to it.
pub proof fn law_double_star_finds_path(b: Seq<char>, t: Seq<char>)
    requires
        is_literal(b),
        b.len() > 0,
        b[0] != '/',
    ensures
        glob_match(seq!['*', '*', '/'] + b, t) <==> t == b || (t.len() > b.len() && t.skip(
            t.len() - b.len(),
        ) == b && t[t.len() - b.len() - 1] == '/'),
{
    let e = Seq::<char>::empty();
    let last = seq!['/'] + b;
    lemma_crossing_path(b);
    lemma_two_pieces(e, last, t);
    lemma_strip_one(b);
    let n = t.len() - b.len();
    if exists|x: int, y: int|
        0 <= x <= y <= t.len() && #[trigger] starts(e, t, x) && #[trigger] finishes(last, t, y) {
        let (x, y) = choose|x: int, y: int|
            0 <= x <= y <= t.len() && #[trigger] starts(e, t, x) && #[trigger] finishes(last, t, y);
        lemma_plain_piece(b, t.skip(y));
        assert(t.skip(y).len() == t.len() - y);
        assert(y == n);
        if y == 0 {
            assert(t.skip(0) =~= t);
        }
    }
    if t == b || (t.len() > b.len() && t.skip(n) == b && t[n - 1] == '/') {
        assert(b.skip(0) =~= b);
        lemma_plain_piece(b, t.skip(n));
        assert(finishes(last, t, n));
        lemma_empty_matches();
        assert(t.take(0) =~= e);
        assert(starts(e, t, 0));
    }
}

/// `/**/` between two literal paths matches what begins with the first and a
/// slash and ends with a slash and the second. One slash may serve as both.
pub proof fn law_double_star_joins_paths(a: Seq<char>, b: Seq<char>, t: Seq<char>)
    requires
        is_literal(a),
        is_literal(b),
        a.len() > 0,
        b.len() > 0,
        a.last() != '/',
        b[0] != '/',
    ensures
        glob_match(a + seq!['/', '*', '*', '/'] + b, t) <==> t.len() > a.len() + b.len() && t.take(
            a.len() as int,
        ) == a && t[a.len() as int] == '/' && t.skip(t.len() - b.len()) == b && t[t.len() - b.len()
            - 1] == '/',
{
    let first = a.push('/');
    let last = seq!['/'] + b;
    lemma_crossing_paths(a, b);
    lemma_two_pieces(first, last, t);
    lemma_strip_one(b);
    let m = a.len() as int;
    let n = t.len() - b.len();
    if exists|x: int, y: int|
        0 <= x <= y <= t.len() && #[trigger] starts(first, t, x) && #[trigger] finishes(last, t, y) {
        let (x, y) = choose|x: int, y: int|
            0 <= x <= y <= t.len() && #[trigger] starts(first, t, x) && #[trigger] finishes(
                last,
                t,
                y,
            );
        lemma_starts_directory(a, t, x);
        lemma_plain_piece(b, t.skip(y));
        assert(t.take(x).len() == x);
        assert(t.skip(y).len() == t.len() - y);
        assert(x == m && y == n);
        if x == y {
            assert(a.last() == t.take(x)[x - 1]);
            assert(b[0] == t.skip(y)[0]);
        }
    }
    if t.len() > m + b.len() && t.take(m) == a && t[m] == '/' && t.skip(n) == b && t[n - 1] == '/' {
        lemma_starts_directory(a, t, m);
        lemma_plain_piece(b, t.skip(n));
        assert(starts(first, t, m));
        assert(finishes(last, t, n));
    }
}

/// A literal text between two `**` matches wherever the path holds it.
pub proof fn law_double_stars_find_text(a: Seq<char>, t: Seq<char>)
    requires
        is_literal(a),
        a.len() > 0,
        a[0] != '/',
        a.last() != '/',
    ensures
        glob_match(crossing(Seq::empty(), crossing(a, Seq::empty())), t) <==> contains(t, a),
{
    lemma_split_three(a);
    lemma_pieces_three(a, t);
}

proof fn lemma_split_three(a: Seq<char>)
    requires
        is_literal(a),
    ensures
        ({
            let e = Seq::<char>::empty();
            let p = crossing(e, crossing(a, e));
            &&& contains(p, double_star())
            &&& split_by(p, double_star()) == seq![e, a, e]
        }),
{
    let e = Seq::<char>::empty();
    let rest = crossing(a, e);
    let p = crossing(e, rest);
    lemma_crossing(a, e);
    lemma_crossing(e, rest);
    assert(is_literal(e));
    lemma_split_two(a, e, rest);
    assert(occurs_at(p, double_star(), 0));
    lemma_find_from(p, double_star(), 0);
    assert(find(p, double_star()) == Some(0int));
    assert(split_by(p, double_star()) == seq![e] + seq![a, e]);
    assert(seq![e] + seq![a, e] =~= seq![e, a, e]);
}

proof fn lemma_pieces_three(a: Seq<char>, t: Seq<char>)
    requires
        is_literal(a),
        a.len() > 0,
        a[0] != '/',
        a.last() != '/',
    ensures
        pieces_match(seq![Seq::<char>::empty(), a, Seq::<char>::empty()], t) <==> contains(t, a),
{
    let e = Seq::<char>::empty();
    let pieces = seq![e, a, e];
    let mid = pieces.subrange(1, pieces.len() - 1);
    let n = t.len() as int;
    assert(mid =~= seq![a]);
    assert(mid.skip(1).len() == 0);
    assert(strip_start(a, '/') == a && strip_end(a, '/') == a);
    if pieces_match(pieces, t) {
        let (x, y) = choose|x: int, y: int|
            0 <= x <= y <= t.len() && #[trigger] starts(pieces[0], t, x) && #[trigger] finishes(
                pieces.last(),
                t,
                y,
            ) && in_order(mid, t, x, y);
        let (i, j) = choose|i: int, j: int|
            x <= i <= j <= y && #[trigger] sits(mid[0], t, i, j) && in_order(mid.skip(1), t, j, y);
        lemma_plain_piece(a, t.subrange(i, j));
        assert(occurs_at(t, a, i));
    }
    if contains(t, a) {
        let i = choose|i: int| occurs_at(t, a, i);
        let j = i + a.len();
        lemma_plain_piece(a, t.subrange(i, j));
        assert(sits(mid[0], t, i, j));
        assert(in_order(mid.skip(1), t, j, n));
        assert(in_order(mid, t, 0, n));
        lemma_empty_matches();
        assert(t.take(0) =~= e);
        assert(starts(pieces[0], t, 0));
        lemma_finishes_empty(t);
        assert(finishes(pieces.last(), t, n));
    }
}

proof fn lemma_strip_one(b: Seq<char>)
    requires
        b.len() > 0,
        b[0] != '/',
    ensures
        strip_start(seq!['/'] + b, '/') == b,
        begins_with_slash(seq!['/'] + b),
{
    assert((seq!['/'] + b).skip(1) =~= b);
    assert(strip_start(b, '/') == b);
}

proof fn lemma_plain_piece(p: Seq<char>, t: Seq<char>)
    requires
        is_literal(p),
    ensures
        piece_match(p, t) <==> p == t,
{
    law_plain_pattern(p, t);
    lemma_no_stars(p);
}

proof fn lemma_starts_literal(a: Seq<char>, t: Seq<char>, x: int)
    requires
        is_literal(a),
        a.len() > 0 ==> a.last() != '/',
        0 <= x <= t.len(),
    ensures
        starts(a, t, x) <==> t.take(x) == a,
{
    assert(strip_end(a, '/') == a);
    lemma_plain_piece(a, t.take(x));
}

proof fn lemma_finishes_literal(b: Seq<char>, t: Seq<char>, y: int)
    requires
        is_literal(b),
        b.len() > 0 ==> b[0] != '/',
        0 <= y <= t.len(),
    ensures
        finishes(b, t, y) <==> t.skip(y) == b,
{
    assert(strip_start(b, '/') == b);
    lemma_plain_piece(b, t.skip(y));
}

/// One `**` between texts without stars makes two pieces, of which the first
/// begins the path and the second ends it.
proof fn lemma_two_pieces(a: Seq<char>, b: Seq<char>, t: Seq<char>)
    requires
        is_literal(a),
        is_literal(b),
    ensures
        glob_match(crossing(a, b), t) <==> exists|x: int, y: int|
            0 <= x <= y <= t.len() && #[trigger] starts(a, t, x) && #[trigger] finishes(b, t, y),
{
    lemma_crossing(a, b);
    lemma_split_two(a, b, crossing(a, b));
    lemma_pieces_two(a, b, t);
}

proof fn lemma_pieces_two(a: Seq<char>, b: Seq<char>, t: Seq<char>)
    ensures
        pieces_match(seq![a, b], t) <==> exists|x: int, y: int|
            0 <= x <= y <= t.len() && #[trigger] starts(a, t, x) && #[trigger] finishes(b, t, y),
{
    let pieces = seq![a, b];
    assert(pieces.last() == b);
    assert(pieces.subrange(1, pieces.len() - 1).len() == 0);
    if exists|x: int, y: int|
        0 <= x <= y <= t.len() && #[trigger] starts(a, t, x) && #[trigger] finishes(b, t, y) {
        let (x, y) = choose|x: int, y: int|
            0 <= x <= y <= t.len() && #[trigger] starts(a, t, x) && #[trigger] finishes(b, t, y);
        assert(starts(pieces[0], t, x));
        assert(finishes(pieces.last(), t, y));
        assert(in_order(pieces.subrange(1, pieces.len() - 1), t, x, y));
    }
    if pieces_match(pieces, t) {
        let (x, y) = choose|x: int, y: int|
            0 <= x <= y <= t.len() && #[trigger] starts(pieces[0], t, x) && #[trigger] finishes(
                pieces.last(),
                t,
                y,
            ) && in_order(pieces.subrange(1, pieces.len() - 1), t, x, y);
        assert(starts(a, t, x) && finishes(b, t, y));
    }
}

proof fn lemma_crossing(a: Seq<char>, b: Seq<char>)
    ensures
        ({
            let p = crossing(a, b);
            &&& p.len() == a.len() + 2 + b.len()
            &&& p.take(a.len() as int) == a
            &&& p.subrange(a.len() as int, a.len() as int + 2) == double_star()
            &&& p.skip(a.len() as int + 2) == b
        }),
{
    reveal(crossing);
    let p = crossing(a, b);
    assert(p.take(a.len() as int) =~= a);
    assert(p.subrange(a.len() as int, a.len() as int + 2) =~= double_star());
    assert(p.skip(a.len() as int + 2) =~= b);
}

proof fn lemma_crossing_path(b: Seq<char>)
    ensures
        crossing(Seq::empty(), seq!['/'] + b) == seq!['*', '*', '/'] + b,
{
    reveal(crossing);
    assert(crossing(Seq::empty(), seq!['/'] + b) =~= seq!['*', '*', '/'] + b);
}

proof fn lemma_crossing_paths(a: Seq<char>, b: Seq<char>)
    ensures
        crossing(a.push('/'), seq!['/'] + b) == a + seq!['/', '*', '*', '/'] + b,
{
    reveal(crossing);
    assert(crossing(a.push('/'), seq!['/'] + b) =~= a + seq!['/', '*', '*', '/'] + b);
}

proof fn lemma_split_two(a: Seq<char>, b: Seq<char>, p: Seq<char>)
    requires
        is_literal(a),
        is_literal(b),
        p.len() == a.len() + 2 + b.len(),
        p.take(a.len() as int) == a,
        p.subrange(a.len() as int, a.len() as int + 2) == double_star(),
        p.skip(a.len() as int + 2) == b,
    ensures
        contains(p, double_star()),
        split_by(p, double_star()) == seq![a, b],
{
    let n = a.len() as int;
    assert(occurs_at(p, double_star(), n));
    assert forall|k: int| 0 <= k < n implies !#[trigger] occurs_at(p, double_star(), k) by {
        assert(p[k] == p.take(n)[k]);
        assert(p.subrange(k, k + 2)[0] == p[k]);
        assert(double_star()[0] == '*');
    }
    lemma_find_from(p, double_star(), 0);
    lemma_find_contains(p, double_star());
    assert(find(p, double_star()) == Some(n));
    lemma_no_stars(b);
    lemma_find_contains(b, double_star());
    assert(split_by(b, double_star()) == seq![b]);
    assert(split_by(p, double_star()) == seq![a] + seq![b]);
    assert(seq![a] + seq![b] =~= seq![a, b]);
}

proof fn lemma_single_star(a: Seq<char>, b: Seq<char>)
    requires
        is_word(a),
        is_word(b),
    ensures
        !contains(a + seq!['*'] + b, double_star()),
        forall|i: int|
            0 <= i < (a + seq!['*'] + b).len() ==> #[trigger] (a + seq!['*'] + b)[i] != '/',
{
    let p = a + seq!['*'] + b;
    if contains(p, double_star()) {
        let i = choose|i: int| occurs_at(p, double_star(), i);
        assert(p.subrange(i, i + 2)[0] == p[i]);
        assert(p.subrange(i, i + 2)[1] == p[i + 1]);
        assert(double_star()[0] == '*' && double_star()[1] == '*');
    }
}

proof fn lemma_no_slash(a: Seq<char>, c: char, b: Seq<char>)
    requires
        is_word(a),
        is_word(b),
        c != '/',
    ensures
        forall|i: int| 0 <= i < (a + seq![c] + b).len() ==> #[trigger] (a + seq![c] + b)[i] != '/',
{
}

proof fn lemma_no_occurrence(s: Seq<char>, c: char)
    requires
        !s.contains(c),
    ensures
        forall|k: int| 0 <= k < s.len() ==> #[trigger] s[k] != c,
{
    assert forall|k: int| 0 <= k < s.len() implies #[trigger] s[k] != c by {
        if s[k] == c {
            assert(s.contains(c));
        }
    }
}

/// A pattern of one component matches paths of one component only.
proof fn lemma_one_component(p: Seq<char>, t: Seq<char>)
    requires
        forall|i: int| 0 <= i < p.len() ==> #[trigger] p[i] != '/',
        !contains(p, double_star()),
    ensures
        glob_match(p, t) <==> !t.contains('/') && component_match(p, t),
{
    lemma_split_whole(p, '/');
    if t.contains('/') {
        law_star_stops_at_slash(p, t);
    } else {
        lemma_no_occurrence(t, '/');
        lemma_split_whole(t, '/');
        let ps = split(p, '/');
        let ts = split(t, '/');
        assert(ps[0] == p && ts[0] == t);
        if piece_match(p, t) {
            assert(component_match(ps[0], ts[0]));
        }
        if component_match(p, t) {
            assert forall|i: int| 0 <= i < ps.len() implies #[trigger] component_match(
                ps[i],
                ts[i],
            ) by {
                assert(i == 0);
            }
        }
    }
}

/// A word at the beginning of a pattern matches itself.
proof fn lemma_literal_prefix(a: Seq<char>, q: Seq<char>, t: Seq<char>)
    requires
        is_word(a),
    ensures
        component_match(a + q, t) <==> t.len() >= a.len() && t.take(a.len() as int) == a
            && component_match(q, t.skip(a.len() as int)),
    decreases a.len(),
{
    if a.len() == 0 {
        assert(a + q =~= q);
        assert(t.skip(0) =~= t);
        assert(t.take(0) =~= a);
    } else {
        let p = a + q;
        let rest = a.skip(1);
        assert(p[0] == a[0]);
        assert(p.skip(1) =~= rest + q);
        if t.len() > 0 {
            assert forall|i: int| 0 <= i < rest.len() implies #[trigger] rest[i] != '*' && rest[i]
                != '?' && rest[i] != '/' by {
                assert(rest[i] == a[i + 1]);
            }
            lemma_literal_prefix(rest, q, t.skip(1));
            if t.len() >= a.len() {
                assert(t.skip(1).skip(rest.len() as int) =~= t.skip(a.len() as int));
                assert(t.skip(1).take(rest.len() as int) =~= t.take(a.len() as int).skip(1));
                assert(a =~= seq![a[0]] + rest);
                assert(t.take(a.len() as int) =~= seq![t[0]] + t.take(a.len() as int).skip(1));
                if t.take(a.len() as int) == a {
                    assert(t.take(a.len() as int)[0] == t[0]);
                    assert(rest == t.take(a.len() as int).skip(1));
                }
            }
        }
    }
}

/// A star before a word matches what ends with the word.
proof fn lemma_star_suffix(b: Seq<char>, t: Seq<char>)
    requires
        is_word(b),
    ensures
        component_match(seq!['*'] + b, t) <==> t.len() >= b.len() && t.skip(t.len() - b.len()) == b,
{
    let p = seq!['*'] + b;
    assert(p.skip(1) =~= b);
    if component_match(p, t) {
        let k = choose|k: int|
            0 <= k <= t.len() && component_match(p.skip(1), #[trigger] t.skip(k));
        lemma_component_plain(b, t.skip(k));
        assert(k == t.len() - b.len());
    }
    if t.len() >= b.len() && t.skip(t.len() - b.len()) == b {
        let k = t.len() - b.len();
        lemma_component_plain(b, t.skip(k));
        assert(component_match(p.skip(1), t.skip(k)));
    }
}

proof fn lemma_concat_joins(p: Seq<char>, q: Seq<char>, s: Seq<char>, t: Seq<char>)
    requires
        component_match(p, s),
        component_match(q, t),
    ensures
        component_match(p + q, s + t),
    decreases p.len(),
{
    let w = p + q;
    if p.len() == 0 {
        assert(w =~= q);
        assert(s + t =~= t);
    } else {
        assert(w[0] == p[0]);
        assert(w.skip(1) =~= p.skip(1) + q);
        if p[0] == '*' {
            let k = choose|k: int|
                0 <= k <= s.len() && component_match(p.skip(1), #[trigger] s.skip(k));
            lemma_concat_joins(p.skip(1), q, s.skip(k), t);
            assert((s + t).skip(k) =~= s.skip(k) + t);
            assert(component_match(w.skip(1), (s + t).skip(k)));
        } else {
            lemma_concat_joins(p.skip(1), q, s.skip(1), t);
            assert((s + t).skip(1) =~= s.skip(1) + t);
        }
    }
}

proof fn lemma_concat_splits(p: Seq<char>, q: Seq<char>, t: Seq<char>) -> (k: int)
    requires
        component_match(p + q, t),
    ensures
        0 <= k <= t.len(),
        component_match(p, t.take(k)),
        component_match(q, t.skip(k)),
    decreases p.len(),
{
    let w = p + q;
    if p.len() == 0 {
        assert(w =~= q);
        assert(t.skip(0) =~= t);
        assert(t.take(0).len() == 0);
        0
    } else {
        assert(w[0] == p[0]);
        assert(w.skip(1) =~= p.skip(1) + q);
        if p[0] == '*' {
            let j = choose|j: int|
                0 <= j <= t.len() && component_match(w.skip(1), #[trigger] t.skip(j));
            let k = lemma_concat_splits(p.skip(1), q, t.skip(j));
            assert(t.skip(j).skip(k) =~= t.skip(j + k));
            assert(t.skip(j).take(k) =~= t.take(j + k).skip(j));
            assert(component_match(p.skip(1), t.take(j + k).skip(j)));
            j + k
        } else {
            let k = lemma_concat_splits(p.skip(1), q, t.skip(1));
            assert(t.skip(1).skip(k) =~= t.skip(k + 1));
            assert(t.skip(1).take(k) =~= t.take(k + 1).skip(1));
            assert(t.take(k + 1)[0] == t[0]);
            k + 1
        }
    }
}

proof fn lemma_parts_match(p: Seq<char>, q: Seq<char>, s: Seq<char>, t: Seq<char>)
    requires
        split(p, '/') == seq![p],
        split(s, '/') == seq![s],
        split(p + seq!['/'] + q, '/') == split(p, '/') + split(q, '/'),
        split(s + seq!['/'] + t, '/') == split(s, '/') + split(t, '/'),
    ensures
        piece_match(p + seq!['/'] + q, s + seq!['/'] + t) <==> piece_match(p, s) && piece_match(
            q,
            t,
        ),
{
    let pw = split(p + seq!['/'] + q, '/');
    let sw = split(s + seq!['/'] + t, '/');
    let qs = split(q, '/');
    let ts = split(t, '/');
    assert(pw[0] == p && sw[0] == s);
    if piece_match(p + seq!['/'] + q, s + seq!['/'] + t) {
        assert(component_match(pw[0], sw[0]));
        assert(split(p, '/')[0] == p && split(s, '/')[0] == s);
        assert forall|i: int| 0 <= i < qs.len() implies #[trigger] component_match(
            qs[i],
            ts[i],
        ) by {
            assert(component_match(pw[i + 1], sw[i + 1]));
        }
    }
    if piece_match(p, s) && piece_match(q, t) {
        assert(component_match(split(p, '/')[0], split(s, '/')[0]));
        assert forall|i: int| 0 <= i < pw.len() implies #[trigger] component_match(
            pw[i],
            sw[i],
        ) by {
            if i > 0 {
                assert(component_match(qs[i - 1], ts[i - 1]));
            }
        }
    }
}

// ------------------------------------------------------------------ execution

fn component_from(p: &Vec<char>, i: usize, t: &Vec<char>, j: usize) -> (r: bool)
    requires
        i <= p@.len(),
        j <= t@.len(),
    ensures
        r == component_match(p@.skip(i as int), t@.skip(j as int)),
    decreases p@.len() - i,
{
    let ghost ps = p@.skip(i as int);
    let ghost ts = t@.skip(j as int);
    let m = p.len();
    if i == m {
        return j == t.len();
    }
    assert(ps[0] == p@[i as int]);
    assert(ps.skip(1) =~= p@.skip(i + 1));
    if p[i] == '*' {
        let n = t.len();
        let mut k: usize = j;
        loop
            invariant
                n == t@.len(),
                m == p@.len(),
                i < m,
                j <= k <= n,
                ps == p@.skip(i as int),
                ts == t@.skip(j as int),
                ps.skip(1) == p@.skip(i + 1),
                ps.len() > 0,
                ps[0] == '*',
                forall|x: int|
                    0 <= x < k - j ==> !component_match(ps.skip(1), #[trigger] ts.skip(x)),
            decreases n - k,
        {
            assert(ts.skip(k - j) =~= t@.skip(k as int));
            if component_from(p, i + 1, t, k) {
                assert(component_match(ps.skip(1), ts.skip(k - j)));
                return true;
            }
            if k == n {
                assert(!component_match(ps, ts));
                return false;
            }
            k += 1;
        }
    }
    if j == t.len() {
        return false;
    }
    assert(ts[0] == t@[j as int]);
    assert(ts.skip(1) =~= t@.skip(j + 1));
    (p[i] == '?' || p[i] == t[j]) && component_from(p, i + 1, t, j + 1)
}

/// Simple glob matching for a single path component.
/// Supports * and ? wildcards.
pub fn matches_simple_glob(pattern: &str, text: &str) -> (r: bool)
    ensures
        r == component_match(pattern@, text@),
{
    let p = chars_of(pattern);
    let t = chars_of(text);
    assert(p@.skip(0) =~= pattern@);
    assert(t@.skip(0) =~= text@);
    component_from(&p, 0, &t, 0)
}

fn piece_matches(p: &Vec<char>, t: &Vec<char>) -> (r: bool)
    ensures
        r == piece_match(p@, t@),
{
    let ps = parts_of(p, '/');
    let ts = parts_of(t, '/');
    let n = ps.len();
    if n != ts.len() {
        return false;
    }
    let ghost pv = split(p@, '/');
    let ghost tv = split(t@, '/');
    for i in 0..n
        invariant
            n == ps@.len(),
            n == ts@.len(),
            pv == views(ps@),
            tv == views(ts@),
            pv == split(p@, '/'),
            tv == split(t@, '/'),
            forall|k: int| 0 <= k < i ==> #[trigger] component_match(pv[k], tv[k]),
    {
        assert(ps@[i as int]@.skip(0) =~= pv[i as int]);
        assert(ts@[i as int]@.skip(0) =~= tv[i as int]);
        if !component_from(&ps[i], 0, &ts[i], 0) {
            assert(!component_match(pv[i as int], tv[i as int]));
            return false;
        }
    }
    true
}

fn is_open(t: &Vec<char>, i: usize) -> (r: bool)
    requires
        i <= t@.len(),
    ensures
        r == opens(t@, i as int),
{
    i == 0 || t[i - 1] == '/'
}

fn is_closed(t: &Vec<char>, i: usize) -> (r: bool)
    requires
        i <= t@.len(),
    ensures
        r == closes(t@, i as int),
{
    i == t.len() || t[i] == '/'
}

fn is_start(p: &Vec<char>, t: &Vec<char>, a: usize) -> (r: bool)
    requires
        a <= t@.len(),
    ensures
        r == starts(p@, t@, a as int),
{
    assert(t@.subrange(0, a as int) =~= t@.take(a as int));
    let n = p.len();
    piece_matches(&stripped_end(p, '/'), &slice(t, 0, a)) && (n == 0 || p[n - 1] != '/'
        || is_closed(t, a))
}

fn is_finish(p: &Vec<char>, t: &Vec<char>, b: usize) -> (r: bool)
    requires
        b <= t@.len(),
    ensures
        r == finishes(p@, t@, b as int),
{
    assert(t@.subrange(b as int, t@.len() as int) =~= t@.skip(b as int));
    piece_matches(&stripped_start(p, '/'), &slice(t, b, t.len())) && (p.len() == 0 || p[0] != '/'
        || is_open(t, b))
}

fn is_seat(p: &Vec<char>, t: &Vec<char>, i: usize, j: usize) -> (r: bool)
    requires
        i <= j <= t@.len(),
    ensures
        r == sits(p@, t@, i as int, j as int),
{
    let inner = stripped(p, '/');
    let n = p.len();
    if !piece_matches(&inner, &slice(t, i, j)) {
        return false;
    }
    if inner.len() == 0 {
        n == 0 || is_open(t, i) || is_closed(t, i)
    } else {
        (n == 0 || p[0] != '/' || is_open(t, i)) && (n == 0 || p[n - 1] != '/' || is_closed(t, j))
    }
}

/// The smallest end of a match of the piece `p` within `t[from..to]`.
fn first_end(p: &Vec<char>, t: &Vec<char>, from: usize, to: usize) -> (r: Option<usize>)
    requires
        from <= to <= t@.len(),
    ensures
        match r {
            Some(j) => from <= j <= to && (exists|i: int|
                from <= i <= j && #[trigger] sits(p@, t@, i, j as int)) && (forall|
                x: int,
                y: int,
            |
                from <= x <= y < j ==> !#[trigger] sits(p@, t@, x, y)),
            None => forall|x: int, y: int|
                from <= x <= y <= to ==> !#[trigger] sits(p@, t@, x, y),
        },
{
    let mut j: usize = from;
    loop
        invariant
            from <= j <= to <= t@.len(),
            forall|x: int, y: int|
                from <= x <= y < j ==> !#[trigger] sits(p@, t@, x, y),
        decreases to - j,
    {
        let mut i: usize = from;
        loop
            invariant
                from <= i <= j <= to <= t@.len(),
                forall|x: int, y: int|
                    from <= x <= y < j ==> !#[trigger] sits(p@, t@, x, y),
                forall|x: int|
                    from <= x < i ==> !#[trigger] sits(p@, t@, x, j as int),
            ensures
                forall|x: int|
                    from <= x <= j ==> !#[trigger] sits(p@, t@, x, j as int),
            decreases j - i,
        {
            if is_seat(p, t, i, j) {
                return Some(j);
            }
            if i == j {
                break;
            }
            i += 1;
        }
        if j == to {
            return None;
        }
        j += 1;
    }
}

/// Matches the pieces between the first and the last in order, each as far to
/// the left as it goes.
fn middle_matches(pieces: &Vec<Vec<char>>, t: &Vec<char>, from: usize, to: usize) -> (r: bool)
    requires
        pieces@.len() >= 2,
        from <= to <= t@.len(),
    ensures
        r == in_order(views(pieces@).subrange(1, pieces@.len() - 1), t@, from as int, to as int),
{
    let ghost all = views(pieces@).subrange(1, pieces@.len() - 1);
    let n = pieces.len();
    let mut pos: usize = from;
    let mut i: usize = 1;
    assert(all.skip(0) =~= all);
    while i < n - 1
        invariant
            n == pieces@.len(),
            n >= 2,
            1 <= i <= n - 1,
            all == views(pieces@).subrange(1, n - 1),
            from <= pos <= to <= t@.len(),
            in_order(all, t@, from as int, to as int) == in_order(
                all.skip(i - 1),
                t@,
                pos as int,
                to as int,
            ),
        decreases n - i,
    {
        let ghost rest = all.skip(i - 1);
        assert(rest[0] == pieces@[i as int]@);
        assert(rest.skip(1) =~= all.skip(i as int));
        match first_end(&pieces[i], t, pos, to) {
            Some(j) => {
                proof {
                    if in_order(rest, t@, pos as int, to as int) {
                        let (x, y) = choose|x: int, y: int|
                            pos <= x <= y <= to && #[trigger] sits(rest[0], t@, x, y) && in_order(
                                rest.skip(1),
                                t@,
                                y,
                                to as int,
                            );
                        lemma_in_order_widen(rest.skip(1), t@, y, to as int, j as int, to as int);
                    }
                    if in_order(rest.skip(1), t@, j as int, to as int) {
                        assert(in_order(rest, t@, pos as int, to as int));
                    }
                }
                pos = j;
            },
            None => {
                assert(!in_order(rest, t@, pos as int, to as int));
                return false;
            },
        }
        i += 1;
    }
    assert(all.skip(n - 2).len() == 0);
    true
}

/// The smallest cut of `t` before which `p` matches.
fn shortest_start(p: &Vec<char>, t: &Vec<char>) -> (r: Option<usize>)
    ensures
        match r {
            Some(a) => a <= t@.len() && starts(p@, t@, a as int) && (forall|x: int|
                0 <= x < a ==> !#[trigger] starts(p@, t@, x)),
            None => forall|x: int| 0 <= x <= t@.len() ==> !#[trigger] starts(p@, t@, x),
        },
{
    let n = t.len();
    let mut a: usize = 0;
    loop
        invariant
            n == t@.len(),
            a <= n,
            forall|x: int| 0 <= x < a ==> !#[trigger] starts(p@, t@, x),
        decreases n - a,
    {
        if is_start(p, t, a) {
            return Some(a);
        }
        if a == n {
            return None;
        }
        a += 1;
    }
}

/// The largest cut of `t`, `from` or later, after which `p` matches.
fn shortest_end(p: &Vec<char>, t: &Vec<char>, from: usize) -> (r: Option<usize>)
    requires
        from <= t@.len(),
    ensures
        match r {
            Some(b) => from <= b <= t@.len() && finishes(p@, t@, b as int) && (forall|
                x: int,
            |
                b < x <= t@.len() ==> !#[trigger] finishes(p@, t@, x)),
            None => forall|x: int|
                from <= x <= t@.len() ==> !#[trigger] finishes(p@, t@, x),
        },
{
    let n = t.len();
    let mut b: usize = n;
    loop
        invariant
            n == t@.len(),
            from <= b <= n,
            forall|x: int| b < x <= n ==> !#[trigger] finishes(p@, t@, x),
        decreases b,
    {
        if is_finish(p, t, b) {
            return Some(b);
        }
        if b == from {
            return None;
        }
        b -= 1;
    }
}

fn pieces_matches(pieces: &Vec<Vec<char>>, t: &Vec<char>) -> (r: bool)
    requires
        pieces@.len() >= 2,
    ensures
        r == pieces_match(views(pieces@), t@),
{
    let n = pieces.len();
    let ghost pv = views(pieces@);
    let ghost mid = pv.subrange(1, n - 1);
    assert(pv[0] == pieces@[0]@);
    assert(pv.last() == pieces@[n - 1]@);
    let a = match shortest_start(&pieces[0], t) {
        Some(a) => a,
        None => {
            return false;
        },
    };
    let b = match shortest_end(&pieces[n - 1], t, a) {
        Some(b) => b,
        None => {
            return false;
        },
    };
    let r = middle_matches(pieces, t, a, b);
    proof {
        if pieces_match(pv, t@) {
            let (x, y) = choose|x: int, y: int|
                0 <= x <= y <= t@.len() && #[trigger] starts(pv[0], t@, x) && #[trigger] finishes(
                    pv.last(),
                    t@,
                    y,
                ) && in_order(mid, t@, x, y);
            lemma_in_order_widen(mid, t@, x, y, a as int, b as int);
        }
    }
    r
}

proof fn lemma_pieces_count(pattern: Seq<char>)
    ensures
        contains(pattern, double_star()) <==> split_by(pattern, double_star()).len() >= 2,
{
    lemma_find_contains(pattern, double_star());
    lemma_find_from(pattern, double_star(), 0);
    match find(pattern, double_star()) {
        Some(i) => {
            assert(occurs_at(pattern, double_star(), i));
            lemma_split_by_len(pattern.skip(i + 2), double_star());
        },
        None => {},
    }
}

proof fn lemma_split_by_len(s: Seq<char>, sep: Seq<char>)
    ensures
        split_by(s, sep).len() >= 1,
{
}

/// Match a pattern containing ** against a path.
pub fn matches_doublestar(pattern: &str, path: &str) -> (r: bool)
    ensures
        r == glob_match(pattern@, path@),
{
    let p = chars_of(pattern);
    let t = chars_of(path);
    let sep = vec!['*', '*'];
    assert(sep@ =~= double_star());
    let pieces = parts_by(&p, &sep);
    proof {
        lemma_pieces_count(pattern@);
        lemma_split_by_len(pattern@, double_star());
    }
    if pieces.len() == 1 {
        piece_matches(&p, &t)
    } else {
        pieces_matches(&pieces, &t)
    }
}

/// Simple glob pattern matching.
/// Supports:
/// - `*` matches any sequence of non-slash characters
/// - `**` matches any sequence of characters including slashes
/// - `?` matches any single non-slash character
pub fn matches_glob(pattern: &str, path: &str) -> (r: bool)
    ensures
        r == glob_match(pattern@, path@),
{
    let p = chars_of(pattern);
    let sep = vec!['*', '*'];
    assert(sep@ =~= double_star());
    proof {
        lemma_find_contains(pattern@, double_star());
    }
    if index_of(&p, &sep).is_some() {
        matches_doublestar(pattern, path)
    } else {
        piece_matches(&p, &chars_of(path))
    }
}

} // verus!
