//! Reads the output of `git status --porcelain`.

use vstd::prelude::*;

use crate::search::{
    begins, contains, find, lemma_find_contains, lines, lines_of, parts_by, split_by, starts_with,
};
use crate::text::{chars_of, lemma_views_push, slice, string_of, trim, trimmed, views};
use crate::utf8::{byte_len, chars_before, index_at_byte};
use crate::workspace::{ChangeType, FileChange, FileChangeView};

verus! {

/// Whether a line is long enough to hold a status and a path.
pub open spec fn has_status(line: Seq<char>) -> bool {
    byte_len(line) >= 3
}

/// The status letters of a line: in the index, and in the working tree.
pub open spec fn status_letter(line: Seq<char>, i: int) -> char {
    let status = line.take(chars_before(line, 2));
    if i < status.len() {
        status[i]
    } else {
        ' '
    }
}

/// The path part of a line.
pub open spec fn status_path(line: Seq<char>) -> Seq<char> {
    trim(line.skip(chars_before(line, 3)))
}

/// The kind of change that the two status letters stand for.
pub open spec fn status_change(index: char, tree: char) -> ChangeType {
    if index == 'D' {
        ChangeType::Deleted
    } else if index == 'R' {
        ChangeType::Renamed
    } else if index == 'A' || index == '?' {
        ChangeType::Added
    } else if (index == 'M' || index == ' ') && tree == 'D' {
        ChangeType::Deleted
    } else {
        ChangeType::Modified
    }
}

/// The change that a line stands for.
pub open spec fn status_line(line: Seq<char>) -> FileChangeView {
    let path = status_path(line);
    let parts = split_by(path, " -> "@);
    FileChangeView {
        change_type: status_change(status_letter(line, 0), status_letter(line, 1)),
        path: if contains(path, " -> "@) {
            parts[1]
        } else {
            path
        },
        old_path: if contains(path, " -> "@) {
            Some(parts[0])
        } else {
            None
        },
    }
}

/// Whether a line counts: it holds a status and a path outside the run's own
/// directory.
pub open spec fn counts(line: Seq<char>) -> bool {
    has_status(line) && !starts_with(status_path(line), ".ralpher/"@)
}

/// The changes that lines stand for.
pub open spec fn status_changes(ls: Seq<Seq<char>>) -> Seq<FileChangeView>
    decreases ls.len(),
{
    if ls.len() == 0 {
        Seq::empty()
    } else {
        let front = status_changes(ls.drop_last());
        if counts(ls.last()) {
            front.push(status_line(ls.last()))
        } else {
            front
        }
    }
}

/// Changes in the run's own directory are never reported.
pub proof fn law_own_directory_is_ignored(ls: Seq<Seq<char>>)
    requires
        forall|i: int| 0 <= i < ls.len() ==> starts_with(status_path(#[trigger] ls[i]), ".ralpher/"@),
    ensures
        status_changes(ls).len() == 0,
    decreases ls.len(),
{
    if ls.len() > 0 {
        let front = ls.drop_last();
        assert forall|i: int| 0 <= i < front.len() implies starts_with(
            status_path(#[trigger] front[i]),
            ".ralpher/"@,
        ) by {
            assert(front[i] == ls[i]);
        }
        law_own_directory_is_ignored(front);
        assert(ls.last() == ls[ls.len() - 1]);
    }
}

/// Whether a line of git's is left out: it is too short, or its path lies in the
/// run's own directory.
pub open spec fn is_left_out(line: Seq<char>) -> bool {
    byte_len(line) < 3 || (status_path(line).len() >= 9 && status_path(line).take(9)
        == ".ralpher/"@)
}

/// No other line is left out: lines that are long enough and whose paths lie
/// elsewhere give one change each, in order.
pub proof fn law_every_other_change_counts(ls: Seq<Seq<char>>)
    requires
        forall|i: int| 0 <= i < ls.len() ==> !is_left_out(#[trigger] ls[i]),
    ensures
        status_changes(ls).len() == ls.len(),
        forall|i: int|
            0 <= i < ls.len() ==> seq![#[trigger] status_changes(ls)[i]] == status_changes(
                seq![ls[i]],
            ),
    decreases ls.len(),
{
    reveal_strlit(".ralpher/");
    if ls.len() > 0 {
        let front = ls.drop_last();
        assert forall|i: int| 0 <= i < front.len() implies !is_left_out(#[trigger] front[i]) by {
            assert(front[i] == ls[i]);
        }
        law_every_other_change_counts(front);
        assert(!is_left_out(ls[ls.len() - 1]));
        assert(counts(ls.last()));
        assert forall|i: int| 0 <= i < ls.len() implies seq![#[trigger] status_changes(ls)[i]]
            == status_changes(seq![ls[i]]) by {
            if i < front.len() {
                assert(status_changes(ls)[i] == status_changes(front)[i]);
            } else {
                lemma_single_line(ls.last());
            }
        }
    }
}

proof fn lemma_single_line(line: Seq<char>)
    ensures
        status_changes(seq![line]) == (if counts(line) {
            seq![status_line(line)]
        } else {
            Seq::empty()
        }),
{
    assert(seq![line].drop_last() =~= Seq::<Seq<char>>::empty());
    assert(seq![line].last() == line);
    assert(status_changes(Seq::<Seq<char>>::empty()) =~= Seq::empty());
    assert(status_changes(seq![line]) =~= (if counts(line) {
        seq![status_line(line)]
    } else {
        Seq::empty()
    }));
}

/// What is reported of lines is what is reported of the first and then of the
/// rest.
pub proof fn law_changes_add_up(a: Seq<Seq<char>>, b: Seq<Seq<char>>)
    ensures
        status_changes(a + b) == status_changes(a) + status_changes(b),
    decreases b.len(),
{
    if b.len() == 0 {
        assert(a + b =~= a);
        assert(status_changes(a) + status_changes(b) =~= status_changes(a));
    } else {
        law_changes_add_up(a, b.drop_last());
        assert((a + b).drop_last() =~= a + b.drop_last());
        assert((a + b).last() == b.last());
        assert(status_changes(a + b) =~= status_changes(a) + status_changes(b));
    }
}

/// Whether a character is one byte wide.
pub open spec fn is_narrow(c: char) -> bool {
    (c as u32) < 0x80
}

/// A line of two status letters, a blank and a path gives one change, to that
/// path. A path in the run's own directory gives none.
pub proof fn law_line_gives_its_path(x: char, y: char, path: Seq<char>)
    requires
        is_narrow(x),
        is_narrow(y),
        trim(path) == path,
        !contains(path, " -> "@),
    ensures
        ({
            let line = seq![x, y, ' '] + path;
            let own = path.len() >= 9 && path.take(9) == ".ralpher/"@;
            &&& own ==> status_changes(seq![line]).len() == 0
            &&& !own ==> status_changes(seq![line]).len() == 1 && status_changes(seq![line])[0].path
                == path && status_changes(seq![line])[0].old_path is None
        }),
{
    let line = seq![x, y, ' '] + path;
    reveal_strlit(".ralpher/");
    lemma_status_parts(x, y, path);
    lemma_single_line(line);
}

/// A line with an arrow tells the former path before it and the new one behind
/// it.
pub proof fn law_renamed_line_gives_both_paths(x: char, y: char, old: Seq<char>, new: Seq<char>)
    requires
        is_narrow(x),
        is_narrow(y),
        trim(old + " -> "@ + new) == old + " -> "@ + new,
        !starts_with(old + " -> "@ + new, ".ralpher/"@),
        !contains(new, " -> "@),
        find(old + " -> "@ + new, " -> "@) == Some(old.len() as int),
    ensures
        ({
            let line = seq![x, y, ' '] + (old + " -> "@ + new);
            &&& status_changes(seq![line]).len() == 1
            &&& status_changes(seq![line])[0].path == new
            &&& status_changes(seq![line])[0].old_path == Some(old)
        }),
{
    let path = old + " -> "@ + new;
    let line = seq![x, y, ' '] + path;
    reveal_strlit(" -> ");
    lemma_status_parts(x, y, path);
    lemma_single_line(line);
    lemma_find_contains(path, " -> "@);
    lemma_find_contains(new, " -> "@);
    assert(path.take(old.len() as int) =~= old);
    assert(path.skip(old.len() as int + 4) =~= new);
    assert(split_by(new, " -> "@) == seq![new]);
    assert(split_by(path, " -> "@) == seq![old] + seq![new]);
    assert((seq![old] + seq![new])[0] == old);
    assert((seq![old] + seq![new])[1] == new);
}

/// What the two status letters of a change say: a deletion in the index or in
/// the working tree is a deletion, a rename in the index a rename, and what is
/// added or untracked an addition. Anything else is a modification.
pub proof fn law_letters_tell_the_change(x: char, y: char, path: Seq<char>)
    requires
        is_narrow(x),
        is_narrow(y),
        trim(path) == path,
        !starts_with(path, ".ralpher/"@),
    ensures
        ({
            let changes = status_changes(seq![seq![x, y, ' '] + path]);
            let change = changes[0].change_type;
            &&& changes.len() == 1
            &&& x == 'D' || ((x == ' ' || x == 'M') && y == 'D') <==> change == ChangeType::Deleted
            &&& x == 'R' <==> change == ChangeType::Renamed
            &&& x == 'A' || x == '?' <==> change == ChangeType::Added
            &&& change == ChangeType::Deleted || change == ChangeType::Renamed || change
                == ChangeType::Added || change == ChangeType::Modified
        }),
{
    lemma_status_parts(x, y, path);
    lemma_single_line(seq![x, y, ' '] + path);
}

proof fn lemma_status_parts(x: char, y: char, path: Seq<char>)
    requires
        is_narrow(x),
        is_narrow(y),
        trim(path) == path,
    ensures
        ({
            let line = seq![x, y, ' '] + path;
            &&& has_status(line)
            &&& status_path(line) == path
            &&& status_letter(line, 0) == x
            &&& status_letter(line, 1) == y
        }),
{
    let line = seq![x, y, ' '] + path;
    lemma_short(line);
    reveal_with_fuel(chars_before, 4);
    assert(line.skip(1)[0] == y);
    assert(line.skip(1).skip(1)[0] == ' ');
    assert(chars_before(line, 2) == 2);
    assert(chars_before(line, 3) == 3);
    assert(line.skip(3) =~= path);
    assert(line.take(2)[0] == x && line.take(2)[1] == y);
}

proof fn lemma_short(v: Seq<char>)
    ensures
        v.len() >= 3 ==> byte_len(v) >= 3,
{
    if v.len() >= 3 {
        crate::utf8::lemma_byte_len_take(v, 0, v.len() as int);
        assert(v.take(v.len() as int) =~= v);
    }
}

/// Tells whether a line takes at least three bytes.
fn line_has_status(v: &Vec<char>) -> (r: bool)
    ensures
        r == has_status(v@),
{
    if v.len() >= 3 {
        proof {
            lemma_short(v@);
        }
        return true;
    }
    let mut total: usize = 0;
    let n = v.len();
    assert(v@.take(0) =~= Seq::<char>::empty());
    for i in 0..n
        invariant
            n == v@.len(),
            n < 3,
            total <= 4 * i,
            total == byte_len(v@.take(i as int)),
    {
        assert(v@.take(i + 1).drop_last() =~= v@.take(i as int));
        total += crate::utf8::char_width(v[i]);
    }
    assert(v@.take(n as int) =~= v@);
    total >= 3
}

fn read_status_letter(line: &Vec<char>, end: usize, i: usize) -> (r: char)
    requires
        end <= line@.len(),
        end == chars_before(line@, 2),
    ensures
        r == status_letter(line@, i as int),
{
    if i < end {
        line[i]
    } else {
        ' '
    }
}

fn read_path(line: &Vec<char>) -> (r: Vec<char>)
    ensures
        r@ == status_path(line@),
{
    let k = index_at_byte(line, 3);
    let n = line.len();
    assert(line@.subrange(k as int, n as int) =~= line@.skip(k as int));
    trimmed(&slice(line, k, n))
}

fn read_kind(line: &Vec<char>) -> (r: ChangeType)
    ensures
        r == status_change(status_letter(line@, 0), status_letter(line@, 1)),
{
    let k = index_at_byte(line, 2);
    let index = read_status_letter(line, k, 0);
    let tree = read_status_letter(line, k, 1);
    match index {
        'D' => ChangeType::Deleted,
        'R' => ChangeType::Renamed,
        'A' => ChangeType::Added,
        '?' => ChangeType::Added,
        'M' | ' ' => if tree == 'D' {
            ChangeType::Deleted
        } else {
            ChangeType::Modified
        },
        _ => ChangeType::Modified,
    }
}

fn read_status_line(line: &Vec<char>, path: &Vec<char>) -> (r: FileChange)
    requires
        path@ == status_path(line@),
    ensures
        r@ == status_line(line@),
{
    let arrow = chars_of(" -> ");
    proof {
        reveal_strlit(" -> ");
        lemma_find_contains(path@, " -> "@);
        lemma_arrow_parts(path@);
    }
    let parts = parts_by(path, &arrow);
    let change_type = read_kind(line);
    if crate::search::holds(path, &arrow) {
        assert(views(parts@).len() >= 2);
        assert(views(parts@)[0] == parts@[0]@);
        assert(views(parts@)[1] == parts@[1]@);
        FileChange {
            change_type,
            path: string_of(&parts[1]),
            old_path: Some(string_of(&parts[0])),
        }
    } else {
        FileChange { change_type, path: string_of(path), old_path: None }
    }
}

proof fn lemma_arrow_parts(path: Seq<char>)
    ensures
        contains(path, " -> "@) ==> split_by(path, " -> "@).len() >= 2,
{
    reveal_strlit(" -> ");
    crate::search::lemma_find_from(path, " -> "@, 0);
    lemma_find_contains(path, " -> "@);
    if contains(path, " -> "@) {
        let i = crate::search::find(path, " -> "@)->0;
        assert(crate::search::occurs_at(path, " -> "@, i));
        assert(split_by(path.skip(i + 4), " -> "@).len() >= 1);
    }
}

/// Reads the changes that `git status --porcelain` reports.
pub fn parse_porcelain(output: &str) -> (r: Vec<FileChange>)
    ensures
        views(r@) == status_changes(lines(output@)),
{
    let ls = lines_of(&chars_of(output));
    let n = ls.len();
    let ghost lv = lines(output@);
    let mut changes: Vec<FileChange> = Vec::new();
    let own = chars_of(".ralpher/");
    for i in 0..n
        invariant
            n == ls@.len(),
            lv == views(ls@),
            own@ == ".ralpher/"@,
            views(changes@) == status_changes(lv.take(i as int)),
    {
        broadcast use lemma_views_push;

        assert(lv.take(i + 1).drop_last() =~= lv.take(i as int));
        assert(lv[i as int] == ls@[i as int]@);
        if line_has_status(&ls[i]) {
            let path = read_path(&ls[i]);
            if !begins(&path, &own) {
                changes.push(read_status_line(&ls[i], &path));
            }
        }
    }
    assert(lv.take(n as int) =~= lv);
    changes
}

} // verus!
