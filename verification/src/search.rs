//! Finding, splitting and joining text.

use vstd::prelude::*;

use crate::text::{lemma_views_push, slice, views};

verus! {

/// Whether `needle` stands in `hay` at index `i`.
pub open spec fn occurs_at(hay: Seq<char>, needle: Seq<char>, i: int) -> bool {
    0 <= i && i + needle.len() <= hay.len() && hay.subrange(i, i + needle.len()) == needle
}

/// Whether `s` begins with `p`.
pub open spec fn starts_with(s: Seq<char>, p: Seq<char>) -> bool {
    occurs_at(s, p, 0)
}

/// Whether `s` ends with `p`.
pub open spec fn ends_with(s: Seq<char>, p: Seq<char>) -> bool {
    occurs_at(s, p, s.len() - p.len())
}

/// Whether `needle` stands somewhere in `hay`.
pub open spec fn contains(hay: Seq<char>, needle: Seq<char>) -> bool {
    exists|i: int| occurs_at(hay, needle, i)
}

/// The first index from `from` on at which `needle` stands in `hay`.
pub open spec fn find_from(hay: Seq<char>, needle: Seq<char>, from: int) -> Option<int>
    decreases hay.len() + 1 - from,
{
    if from < 0 || from + needle.len() > hay.len() {
        None
    } else if occurs_at(hay, needle, from) {
        Some(from)
    } else {
        find_from(hay, needle, from + 1)
    }
}

/// The first index at which `needle` stands in `hay`.
pub open spec fn find(hay: Seq<char>, needle: Seq<char>) -> Option<int> {
    find_from(hay, needle, 0)
}

/// The parts of `s` between the occurrences of `c`.
pub open spec fn split(s: Seq<char>, c: char) -> Seq<Seq<char>>
    decreases s.len(),
{
    if s.len() == 0 {
        seq![Seq::<char>::empty()]
    } else {
        let front = split(s.drop_last(), c);
        if s.last() == c {
            front.push(Seq::<char>::empty())
        } else {
            front.drop_last().push(front.last().push(s.last()))
        }
    }
}

/// The parts of `s` between the occurrences of `sep`, taken from the left.
pub open spec fn split_by(s: Seq<char>, sep: Seq<char>) -> Seq<Seq<char>>
    decreases s.len(),
{
    match find(s, sep) {
        Some(i) if sep.len() > 0 && 0 <= i && i + sep.len() <= s.len() => seq![s.take(i)]
            + split_by(s.skip(i + sep.len()), sep),
        _ => seq![s],
    }
}

/// `s` without one carriage return at its end.
pub open spec fn without_cr(s: Seq<char>) -> Seq<char> {
    if s.len() > 0 && s.last() == '\r' {
        s.drop_last()
    } else {
        s
    }
}

/// The lines of `s`: its parts between line feeds, where a carriage return
/// before a line feed belongs to the line ending and a last empty part is none.
pub open spec fn lines(s: Seq<char>) -> Seq<Seq<char>> {
    let parts = split(s, '\n');
    let count = if parts.last().len() == 0 {
        (parts.len() - 1) as nat
    } else {
        parts.len()
    };
    Seq::new(
        count,
        |i: int|
            if i < parts.len() - 1 {
                without_cr(parts[i])
            } else {
                parts[i]
            },
    )
}

/// The parts one after the other, with `sep` between two of them.
pub open spec fn join(parts: Seq<Seq<char>>, sep: Seq<char>) -> Seq<char>
    decreases parts.len(),
{
    if parts.len() == 0 {
        Seq::<char>::empty()
    } else if parts.len() == 1 {
        parts[0]
    } else {
        join(parts.drop_last(), sep) + sep + parts.last()
    }
}

/// `s` with each `c` replaced by `with`.
pub open spec fn replace_char(s: Seq<char>, c: char, with: Seq<char>) -> Seq<char>
    decreases s.len(),
{
    if s.len() == 0 {
        s
    } else if s.last() == c {
        replace_char(s.drop_last(), c, with) + with
    } else {
        replace_char(s.drop_last(), c, with).push(s.last())
    }
}

// --------------------------------------------------------------------- lemmas

pub proof fn lemma_find_from(hay: Seq<char>, needle: Seq<char>, from: int)
    requires
        0 <= from,
    ensures
        match find_from(hay, needle, from) {
            Some(i) => from <= i && occurs_at(hay, needle, i) && (forall|k: int|
                from <= k < i ==> !#[trigger] occurs_at(hay, needle, k)),
            None => forall|k: int| from <= k ==> !#[trigger] occurs_at(hay, needle, k),
        },
    decreases hay.len() + 1 - from,
{
    if from + needle.len() <= hay.len() && !occurs_at(hay, needle, from) {
        lemma_find_from(hay, needle, from + 1);
    }
}

/// A text holds another exactly where the search for it finds an index.
pub proof fn lemma_find_contains(hay: Seq<char>, needle: Seq<char>)
    ensures
        find(hay, needle) is Some <==> contains(hay, needle),
{
    lemma_find_from(hay, needle, 0);
}

pub proof fn lemma_split_len(s: Seq<char>, c: char)
    ensures
        split(s, c).len() >= 1,
    decreases s.len(),
{
    if s.len() > 0 {
        lemma_split_len(s.drop_last(), c);
    }
}

/// No part of a split holds the separator.
pub proof fn lemma_split_parts(s: Seq<char>, c: char)
    ensures
        split(s, c).len() >= 1,
        forall|i: int, k: int|
            0 <= i < split(s, c).len() && 0 <= k < split(s, c)[i].len()
                ==> #[trigger] split(s, c)[i][k] != c,
    decreases s.len(),
{
    if s.len() > 0 {
        lemma_split_parts(s.drop_last(), c);
    }
}

/// A text without the separator is its own only part.
pub proof fn lemma_split_whole(s: Seq<char>, c: char)
    requires
        forall|k: int| 0 <= k < s.len() ==> #[trigger] s[k] != c,
    ensures
        split(s, c) == seq![s],
    decreases s.len(),
{
    if s.len() > 0 {
        assert forall|k: int| 0 <= k < s.drop_last().len() implies #[trigger] s.drop_last()[k]
            != c by {
            assert(s.drop_last()[k] == s[k]);
        }
        lemma_split_whole(s.drop_last(), c);
        assert(s.drop_last().push(s.last()) =~= s);
        assert(split(s, c) =~= seq![s]);
    } else {
        assert(s =~= Seq::<char>::empty());
    }
}

/// The parts of a split, put together again with the separator, are the text.
pub proof fn lemma_split_join(s: Seq<char>, c: char)
    ensures
        join(split(s, c), seq![c]) == s,
    decreases s.len(),
{
    lemma_split_len(s, c);
    if s.len() > 0 {
        let front = split(s.drop_last(), c);
        lemma_split_join(s.drop_last(), c);
        lemma_split_len(s.drop_last(), c);
        if s.last() == c {
            assert(front.push(Seq::<char>::empty()).drop_last() =~= front);
            assert(s.drop_last() + seq![c] + Seq::<char>::empty() =~= s);
        } else {
            let last = front.last().push(s.last());
            assert(front.drop_last().push(last).drop_last() =~= front.drop_last());
            if front.len() == 1 {
                assert(s.drop_last().push(s.last()) =~= s);
            } else {
                let head = join(front.drop_last(), seq![c]) + seq![c];
                assert(head + last =~= (head + front.last()).push(s.last()));
                assert(s.drop_last().push(s.last()) =~= s);
            }
        }
    }
}

/// A separator and a text without it, put behind another text, add one part.
pub proof fn lemma_split_append(s: Seq<char>, c: char, tail: Seq<char>)
    requires
        !tail.contains(c),
    ensures
        split(s + seq![c] + tail, c) == split(s, c).push(tail),
    decreases tail.len(),
{
    let whole = s + seq![c] + tail;
    if tail.len() == 0 {
        assert(whole.drop_last() =~= s);
        assert(whole.last() == c);
        assert(tail =~= Seq::<char>::empty());
    } else {
        let shorter = tail.drop_last();
        assert(!shorter.contains(c)) by {
            if shorter.contains(c) {
                let i = choose|i: int| 0 <= i < shorter.len() && shorter[i] == c;
                assert(tail[i] == c);
            }
        }
        lemma_split_append(s, c, shorter);
        assert(whole.drop_last() =~= s + seq![c] + shorter);
        assert(whole.last() == tail.last());
        assert(tail.last() != c) by {
            assert(tail[tail.len() - 1] == tail.last());
        }
        let front = split(whole.drop_last(), c);
        assert(front.drop_last() =~= split(s, c));
        assert(shorter.push(tail.last()) =~= tail);
    }
}

/// The parts of two texts with the separator between them are the parts of both.
pub proof fn lemma_split_concat(s: Seq<char>, c: char, t: Seq<char>)
    ensures
        split(s + seq![c] + t, c) == split(s, c) + split(t, c),
    decreases t.len(),
{
    let whole = s + seq![c] + t;
    lemma_split_len(s, c);
    if t.len() == 0 {
        assert(whole.drop_last() =~= s);
        assert(split(whole, c) =~= split(s, c) + split(t, c));
    } else {
        lemma_split_concat(s, c, t.drop_last());
        lemma_split_len(t.drop_last(), c);
        assert(whole.drop_last() =~= s + seq![c] + t.drop_last());
        assert(whole.last() == t.last());
        assert(split(whole, c) =~= split(s, c) + split(t, c));
    }
}

// ------------------------------------------------------------------ execution

broadcast use lemma_views_push;

/// Tells whether `needle` stands in `hay` at index `i`.
pub fn stands_at(hay: &Vec<char>, needle: &Vec<char>, i: usize) -> (r: bool)
    ensures
        r == occurs_at(hay@, needle@, i as int),
{
    let n = hay.len();
    let m = needle.len();
    if m > n || i > n - m {
        return false;
    }
    let mut k: usize = 0;
    while k < m
        invariant
            n == hay@.len(),
            m == needle@.len(),
            m <= n,
            i <= n - m,
            k <= m,
            forall|j: int| 0 <= j < k ==> hay@[i + j] == #[trigger] needle@[j],
        decreases m - k,
    {
        if hay[i + k] != needle[k] {
            assert(hay@.subrange(i as int, i + m)[k as int] != needle@[k as int]);
            return false;
        }
        k += 1;
    }
    assert(hay@.subrange(i as int, i + m) =~= needle@);
    true
}

/// The first index at which `needle` stands in `hay`.
pub fn index_of(hay: &Vec<char>, needle: &Vec<char>) -> (r: Option<usize>)
    ensures
        match r {
            Some(i) => find(hay@, needle@) == Some(i as int),
            None => find(hay@, needle@) is None,
        },
{
    let n = hay.len();
    let m = needle.len();
    if m > n {
        return None;
    }
    let last = n - m;
    let mut i: usize = 0;
    loop
        invariant
            n == hay@.len(),
            m == needle@.len(),
            last == n - m,
            m <= n,
            i <= last,
            find(hay@, needle@) == find_from(hay@, needle@, i as int),
        decreases last - i,
    {
        if stands_at(hay, needle, i) {
            return Some(i);
        }
        if i == last {
            assert(find_from(hay@, needle@, i + 1) is None);
            return None;
        }
        i += 1;
    }
}

/// Tells whether `needle` stands somewhere in `hay`.
pub fn holds(hay: &Vec<char>, needle: &Vec<char>) -> (r: bool)
    ensures
        r == contains(hay@, needle@),
{
    proof {
        lemma_find_contains(hay@, needle@);
    }
    index_of(hay, needle).is_some()
}

/// Tells whether `s` begins with `p`.
pub fn begins(s: &Vec<char>, p: &Vec<char>) -> (r: bool)
    ensures
        r == starts_with(s@, p@),
{
    stands_at(s, p, 0)
}

/// Tells whether `s` ends with `p`.
pub fn ends(s: &Vec<char>, p: &Vec<char>) -> (r: bool)
    ensures
        r == ends_with(s@, p@),
{
    if p.len() > s.len() {
        return false;
    }
    stands_at(s, p, s.len() - p.len())
}

/// The parts of `v` between the occurrences of `c`.
pub fn parts_of(v: &Vec<char>, c: char) -> (r: Vec<Vec<char>>)
    ensures
        views(r@) == split(v@, c),
{
    let mut out: Vec<Vec<char>> = Vec::new();
    let mut cur: Vec<char> = Vec::new();
    let n = v.len();
    assert(v@.take(0) =~= Seq::<char>::empty());
    assert(views(out@).push(cur@) =~= seq![Seq::<char>::empty()]);
    for i in 0..n
        invariant
            n == v@.len(),
            views(out@).push(cur@) == split(v@.take(i as int), c),
    {
        let ghost before = views(out@);
        let ghost part = cur@;
        let ghost t = v@.take(i + 1);
        assert(t.drop_last() =~= v@.take(i as int));
        assert(t.last() == v@[i as int]);
        assert(before.push(part).drop_last() =~= before);
        if v[i] == c {
            out.push(cur);
            cur = Vec::new();
            assert(views(out@) =~= before.push(part));
            assert(cur@ =~= Seq::<char>::empty());
        } else {
            cur.push(v[i]);
        }
    }
    assert(v@.take(n as int) =~= v@);
    let ghost before = views(out@);
    let ghost part = cur@;
    out.push(cur);
    assert(views(out@) =~= before.push(part));
    out
}

/// The parts of `v` between the occurrences of `sep`, taken from the left.
pub fn parts_by(v: &Vec<char>, sep: &Vec<char>) -> (r: Vec<Vec<char>>)
    requires
        sep@.len() > 0,
    ensures
        views(r@) == split_by(v@, sep@),
{
    let mut out: Vec<Vec<char>> = Vec::new();
    let mut rest: Vec<char> = slice(v, 0, v.len());
    assert(rest@ =~= v@);
    assert(views(out@) + split_by(rest@, sep@) =~= split_by(v@, sep@));
    loop
        invariant
            sep@.len() > 0,
            views(out@) + split_by(rest@, sep@) == split_by(v@, sep@),
        decreases rest@.len(),
    {
        proof {
            lemma_find_from(rest@, sep@, 0);
        }
        match index_of(&rest, sep) {
            Some(i) => {
                let ghost before = views(out@);
                assert(occurs_at(rest@, sep@, i as int));
                let part = slice(&rest, 0, i);
                let m = rest.len();
                let next = slice(&rest, i + sep.len(), m);
                assert(part@ =~= rest@.take(i as int));
                assert(next@ =~= rest@.skip(i + sep@.len()));
                let ghost p = part@;
                out.push(part);
                assert(views(out@) =~= before.push(p));
                assert(before.push(p) + split_by(next@, sep@) =~= before + (seq![p] + split_by(
                    next@,
                    sep@,
                )));
                rest = next;
            },
            None => {
                let ghost before = views(out@);
                let ghost p = rest@;
                out.push(rest);
                assert(views(out@) =~= before + seq![p]);
                return out;
            },
        }
    }
}

/// The lines of `v`.
pub fn lines_of(v: &Vec<char>) -> (r: Vec<Vec<char>>)
    ensures
        views(r@) == lines(v@),
{
    let parts = parts_of(v, '\n');
    proof {
        lemma_split_len(v@, '\n');
    }
    let total = parts.len();
    let ghost pv = views(parts@);
    assert(pv.last() == parts@[total - 1]@);
    let count: usize = if parts[total - 1].len() == 0 {
        total - 1
    } else {
        total
    };
    let mut out: Vec<Vec<char>> = Vec::new();
    for i in 0..count
        invariant
            total == parts@.len(),
            total >= 1,
            count <= total,
            pv == views(parts@),
            pv == split(v@, '\n'),
            count == lines(v@).len(),
            views(out@) =~= lines(v@).take(i as int),
    {
        let ghost before = views(out@);
        assert(pv[i as int] == parts@[i as int]@);
        let m = parts[i].len();
        let line = if i < total - 1 && m > 0 && parts[i][m - 1] == '\r' {
            slice(&parts[i], 0, m - 1)
        } else {
            slice(&parts[i], 0, m)
        };
        let ghost l = line@;
        assert(l =~= lines(v@)[i as int]);
        out.push(line);
        assert(views(out@) =~= before.push(l));
        assert(lines(v@).take(i + 1) =~= lines(v@).take(i as int).push(l));
    }
    assert(lines(v@).take(count as int) =~= lines(v@));
    out
}

/// `v` with each `c` replaced by `with`.
pub fn replaced(v: &Vec<char>, c: char, with: &Vec<char>) -> (r: Vec<char>)
    ensures
        r@ == replace_char(v@, c, with@),
{
    let mut out: Vec<char> = Vec::new();
    let n = v.len();
    assert(v@.take(0) =~= out@);
    for i in 0..n
        invariant
            n == v@.len(),
            out@ == replace_char(v@.take(i as int), c, with@),
    {
        let ghost t = v@.take(i + 1);
        assert(t.drop_last() =~= v@.take(i as int));
        if v[i] == c {
            let ghost before = out@;
            let m = with.len();
            for k in 0..m
                invariant
                    m == with@.len(),
                    out@ == before + with@.take(k as int),
            {
                assert(with@.take(k + 1) =~= with@.take(k as int).push(with@[k as int]));
                out.push(with[k]);
                assert(out@ =~= before + with@.take(k + 1));
            }
            assert(with@.take(m as int) =~= with@);
        } else {
            out.push(v[i]);
        }
    }
    assert(v@.take(n as int) =~= v@);
    out
}

/// No line holds a line break, and lines with breaks between them and behind the
/// last are read back, where none ends in a carriage return.
pub proof fn law_lines_are_read_back(s: Seq<char>, line: Seq<char>)
    requires
        !line.contains('\n'),
        line.len() == 0 || line.last() != '\r',
        s.len() == 0 || s.last() == '\n',
    ensures
        lines(s + line + seq!['\n']) == lines(s).push(line),
        lines(s + line.push('\r') + seq!['\n']) == lines(s).push(line),
        line.len() > 0 ==> lines(s + line) == lines(s).push(line),
        lines(Seq::empty()).len() == 0,
{
    let e = Seq::<char>::empty();
    assert(split(e, '\n') =~= seq![e]);
    lemma_parts_of_lines(s, line);
    let odd = line.push('\r');
    assert(!odd.contains('\n')) by {
        if odd.contains('\n') {
            let i = choose|i: int| 0 <= i < odd.len() && odd[i] == '\n';
            assert(line[i] == '\n');
        }
    }
    lemma_parts_of_lines(s, odd);
    let known = split(s, '\n').drop_last();
    lemma_split_len(s, '\n');
    assert(odd.drop_last() =~= line);
    assert(lines(s) =~= Seq::new(known.len(), |i: int| without_cr(known[i])));
    assert(lines(s + line + seq!['\n']) =~= lines(s).push(line));
    assert(lines(s + odd + seq!['\n']) =~= lines(s).push(line));
    if line.len() > 0 {
        assert(lines(s + line) =~= lines(s).push(line));
    }
}

proof fn lemma_parts_of_lines(s: Seq<char>, line: Seq<char>)
    requires
        !line.contains('\n'),
        s.len() == 0 || s.last() == '\n',
    ensures
        split(s, '\n').last().len() == 0,
        split(s + line, '\n') == split(s, '\n').drop_last().push(line),
        split(s + line + seq!['\n'], '\n') == split(s, '\n').drop_last().push(line).push(
            Seq::empty(),
        ),
{
    let e = Seq::<char>::empty();
    assert(split(e, '\n') =~= seq![e]);
    if s.len() == 0 {
        assert(s =~= e);
        assert(s + line =~= line);
        assert forall|k: int| 0 <= k < line.len() implies #[trigger] line[k] != '\n' by {
            if line[k] == '\n' {
                assert(line.contains('\n'));
            }
        }
        lemma_split_whole(line, '\n');
        assert(split(s, '\n').drop_last().push(line) =~= seq![line]);
    } else {
        let front = s.drop_last();
        assert(s =~= front + seq!['\n'] + e);
        lemma_split_append(front, '\n', e);
        lemma_split_append(front, '\n', line);
        assert(s + line =~= front + seq!['\n'] + line);
        assert(split(s, '\n').drop_last() =~= split(front, '\n'));
    }
    lemma_split_append(s + line, '\n', e);
    assert(s + line + seq!['\n'] + e =~= s + line + seq!['\n']);
}

} // verus!
