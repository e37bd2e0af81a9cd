//! What holds of the stories that are read from a document.

use vstd::prelude::*;

use crate::letters::{lower_ascii, lower_char, lowercase, uppercase};
use crate::number::is_digit;
use crate::prd_parser::{
    bullet_of, closes_acceptance, criteria_of, description_lines, description_of, header_of,
    in_acceptance, last_criterion, number_end, opens_acceptance, sections_of, stories_of, story_of,
    task_of, Section, StoryView,
};
use crate::search::{contains, find, join, lines, replace_char, starts_with};
use crate::text::{is_space, strip_both, strip_end, strip_start, trim, trim_start};

verus! {

// -------------------------------------------------------------------- blank lines

/// Whether two bodies give the same criteria and description, and will go on to
/// do so whatever lines follow.
pub open spec fn alike(u: Seq<Seq<char>>, v: Seq<Seq<char>>) -> bool {
    &&& in_acceptance(u) == in_acceptance(v)
    &&& criteria_of(u) == criteria_of(v)
    &&& description_lines(u) == description_lines(v)
}

proof fn lemma_alike_push(u: Seq<Seq<char>>, v: Seq<Seq<char>>, s: Seq<char>)
    requires
        alike(u, v),
    ensures
        alike(u.push(s), v.push(s)),
{
    assert(u.push(s).drop_last() =~= u);
    assert(v.push(s).drop_last() =~= v);
}

proof fn lemma_blank_alike(u: Seq<Seq<char>>)
    ensures
        alike(u.push(Seq::empty()), u),
{
    let e = Seq::<char>::empty();
    assert(u.push(e).drop_last() =~= u);
    reveal_strlit("acceptance");
    reveal_strlit("#");
    reveal_strlit("**");
    reveal_strlit("- ");
    reveal_strlit("* ");
    reveal_strlit("\u{2022} ");
    assert(!opens_acceptance(e));
    assert(!closes_acceptance(e));
    assert(bullet_of(e) is None);
    assert(last_criterion(u.push(e)) is None);
}

proof fn lemma_alike_append(u: Seq<Seq<char>>, v: Seq<Seq<char>>, b: Seq<Seq<char>>)
    requires
        alike(u, v),
    ensures
        alike(u + b, v + b),
    decreases b.len(),
{
    if b.len() == 0 {
        assert(u + b =~= u);
        assert(v + b =~= v);
    } else {
        lemma_alike_append(u, v, b.drop_last());
        lemma_alike_push(u + b.drop_last(), v + b.drop_last(), b.last());
        assert(u + b =~= (u + b.drop_last()).push(b.last()));
        assert(v + b =~= (v + b.drop_last()).push(b.last()));
    }
}

/// A blank line changes neither criteria nor description, wherever it stands.
pub proof fn law_blank_lines_change_nothing(a: Seq<Seq<char>>, b: Seq<Seq<char>>)
    ensures
        criteria_of(a + seq![Seq::empty()] + b) == criteria_of(a + b),
        description_of(a + seq![Seq::empty()] + b) == description_of(a + b),
{
    lemma_blank_alike(a);
    lemma_alike_append(a.push(Seq::empty()), a, b);
    assert(a.push(Seq::empty()) + b =~= a + seq![Seq::empty()] + b);
}

/// Whether two lists of sections have the same headers and bodies that are
/// alike.
spec fn sections_alike(s: Seq<Section>, t: Seq<Section>) -> bool {
    &&& s.len() == t.len()
    &&& forall|i: int| 0 <= i < s.len() ==> (#[trigger] s[i]).0 == t[i].0 && alike(s[i].1, t[i].1)
}

proof fn lemma_sections_alike(a: Seq<Seq<char>>, w: Seq<char>, b: Seq<Seq<char>>)
    requires
        trim(w).len() == 0,
    ensures
        sections_alike(sections_of(a + seq![w] + b), sections_of(a + b)),
    decreases b.len(),
{
    let longer = a + seq![w] + b;
    let shorter = a + b;
    if b.len() == 0 {
        assert(longer.drop_last() =~= a);
        assert(longer.last() == w);
        assert(shorter =~= a);
        assert(trim(w) =~= Seq::<char>::empty());
        lemma_no_header_in_blank();
        let front = sections_of(a);
        if front.len() > 0 {
            lemma_blank_alike(front.last().1);
        }
    } else {
        lemma_sections_alike(a, w, b.drop_last());
        assert(longer.drop_last() =~= a + seq![w] + b.drop_last());
        assert(shorter.drop_last() =~= a + b.drop_last());
        assert(longer.last() == b.last() && shorter.last() == b.last());
        let x = sections_of(longer.drop_last());
        let y = sections_of(shorter.drop_last());
        let s = trim(b.last());
        if header_of(s) is Some {
            lemma_self_alike(Seq::empty());
        } else if x.len() > 0 {
            assert(alike(x[x.len() - 1].1, y[y.len() - 1].1));
            lemma_alike_push(x.last().1, y.last().1, s);
        }
    }
}

proof fn lemma_self_alike(u: Seq<Seq<char>>)
    ensures
        alike(u, u),
{
}

proof fn lemma_no_header_in_blank()
    ensures
        header_of(Seq::empty()) is None,
{
    reveal_strlit("US-");
    reveal_strlit("us-");
    reveal_strlit("user story");
}

/// The stories that lines give.
pub open spec fn stories_in(ls: Seq<Seq<char>>) -> Seq<StoryView> {
    sections_of(ls).map_values(|s: Section| story_of(s.0, s.1))
}

/// A line of nothing but whitespace changes no story, wherever in a document it
/// stands.
pub proof fn law_blank_lines_change_no_story(
    a: Seq<Seq<char>>,
    blank: Seq<char>,
    b: Seq<Seq<char>>,
)
    requires
        trim(blank).len() == 0,
    ensures
        stories_in(a + seq![blank] + b) == stories_in(a + b),
        forall|content: Seq<char>|
            lines(content) == a + b ==> #[trigger] stories_of(content) == stories_in(
                a + seq![blank] + b,
            ),
{
    lemma_sections_alike(a, blank, b);
    assert(stories_in(a + seq![blank] + b) =~= stories_in(a + b));
}

// ----------------------------------------------------------------------- criteria

/// Whether a line opens the acceptance criteria: it begins with the word, in
/// upper or lower case, and ends with a colon.
pub open spec fn is_opening(s: Seq<char>) -> bool {
    s.len() > 10 && lower_ascii(s).take(10) == "acceptance"@ && s.last() == ':'
}

/// Whether a line looks like a heading: it begins with a hash or with two stars.
pub open spec fn is_heading_like(s: Seq<char>) -> bool {
    s.len() > 0 && (s[0] == '#' || (s.len() > 1 && s[0] == '*' && s[1] == '*'))
}

proof fn lemma_opening(s: Seq<char>)
    ensures
        is_opening(s) ==> opens_acceptance(s),
        opens_acceptance(s) ==> s.len() >= 10 && lower_ascii(s).take(10) == "acceptance"@
            && s.last() == ':',
{
    reveal_strlit("acceptance");
    reveal_strlit(":");
    if is_opening(s) {
        assert(s.skip(s.len() - 1) =~= ":"@);
    }
    if opens_acceptance(s) {
        assert(s.skip(s.len() - 1)[0] == s.last());
    }
}

proof fn lemma_not_heading(s: Seq<char>)
    requires
        !is_heading_like(s),
    ensures
        !closes_acceptance(s),
        !starts_with(s, "#"@),
{
    reveal_strlit("#");
    reveal_strlit("**");
    if starts_with(s, "#"@) {
        assert(s.take(1)[0] == s[0]);
    }
    if starts_with(s, "**"@) {
        assert(s.take(2)[0] == s[0]);
        assert(s.take(2)[1] == s[1]);
    }
}

proof fn lemma_still_in(a: Seq<Seq<char>>, opening: Seq<char>, mid: Seq<Seq<char>>)
    requires
        is_opening(opening),
        forall|i: int| 0 <= i < mid.len() ==> !is_heading_like(#[trigger] mid[i]),
    ensures
        in_acceptance(a.push(opening) + mid),
    decreases mid.len(),
{
    let body = a.push(opening) + mid;
    if mid.len() == 0 {
        assert(body =~= a.push(opening));
        lemma_opening(opening);
    } else {
        let front = mid.drop_last();
        assert forall|i: int| 0 <= i < front.len() implies !is_heading_like(
            #[trigger] front[i],
        ) by {
            assert(front[i] == mid[i]);
        }
        lemma_still_in(a, opening, front);
        assert(body.drop_last() =~= a.push(opening) + front);
        assert(body.last() == mid[mid.len() - 1]);
        lemma_not_heading(body.last());
    }
}

/// After the line that opens them, every bullet is a criterion, in order, until
/// a line that looks like a heading: whatever other lines stand between.
pub proof fn law_bullets_are_criteria(
    a: Seq<Seq<char>>,
    opening: Seq<char>,
    mid: Seq<Seq<char>>,
    criterion: Seq<char>,
)
    requires
        is_opening(opening),
        forall|i: int| 0 <= i < mid.len() ==> !is_heading_like(#[trigger] mid[i]),
        criterion.len() > 0,
        trim(criterion) == criterion,
    ensures
        ({
            let body = a.push(opening) + mid;
            &&& criteria_of(body.push("- "@ + criterion)) == criteria_of(body).push(criterion)
            &&& description_of(body.push("- "@ + criterion)) == description_of(body)
        }),
{
    let body = a.push(opening) + mid;
    let s = "- "@ + criterion;
    lemma_still_in(a, opening, mid);
    law_bullet_markers(criterion);
    reveal_strlit("- ");
    reveal_strlit("acceptance");
    assert(body.push(s).drop_last() =~= body);
    assert(!is_heading_like(s));
    lemma_not_heading(s);
    lemma_opening(s);
    assert(!opens_acceptance(s)) by {
        if opens_acceptance(s) {
            assert(lower_ascii(s).take(10)[0] == lower_char(s[0]));
            assert("acceptance"@[0] == 'a');
        }
    }
    assert(in_acceptance(body.push(s)));
}

/// The line that opens the criteria gives neither a criterion nor a part of the
/// description.
pub proof fn law_opening_is_no_content(a: Seq<Seq<char>>, opening: Seq<char>)
    requires
        is_opening(opening),
    ensures
        criteria_of(a.push(opening)) == criteria_of(a),
        description_of(a.push(opening)) == description_of(a),
{
    lemma_opening(opening);
    assert(a.push(opening).drop_last() =~= a);
}

/// A heading ends the criteria: what follows it gives none until they are opened
/// again. A heading begins with a hash, or begins and ends with two stars, and
/// does not speak of acceptance.
pub proof fn law_heading_ends_criteria(
    a: Seq<Seq<char>>,
    heading: Seq<char>,
    rest: Seq<Seq<char>>,
)
    requires
        heading.len() > 0,
        heading[0] == '#' || (heading.len() >= 2 && heading.take(2) == "**"@ && heading.skip(
            heading.len() - 2,
        ) == "**"@),
        !contains(lower_ascii(heading), "acceptance"@),
        forall|i: int| 0 <= i < rest.len() ==> !opens_acceptance(#[trigger] rest[i]),
    ensures
        criteria_of(a.push(heading) + rest) == criteria_of(a),
        !in_acceptance(a.push(heading) + rest),
    decreases rest.len(),
{
    let body = a.push(heading) + rest;
    if rest.len() == 0 {
        assert(body =~= a.push(heading));
        assert(body.drop_last() =~= a);
        reveal_strlit("#");
        reveal_strlit("**");
        reveal_strlit("acceptance");
        if heading[0] == '#' {
            assert(heading.take(1) =~= "#"@);
        }
        lemma_opening(heading);
        assert(!opens_acceptance(heading)) by {
            if opens_acceptance(heading) {
                assert(lower_ascii(heading).take(10)[0] == lower_char(heading[0]));
                assert("acceptance"@[0] == 'a');
                if heading[0] != '#' {
                    assert(heading.take(2)[0] == heading[0]);
                }
            }
        }
    } else {
        let front = rest.drop_last();
        assert forall|i: int| 0 <= i < front.len() implies !opens_acceptance(
            #[trigger] front[i],
        ) by {
            assert(front[i] == rest[i]);
        }
        law_heading_ends_criteria(a, heading, front);
        assert(body.drop_last() =~= a.push(heading) + front);
        assert(body.last() == rest[rest.len() - 1]);
    }
}

/// Only a heading ends the criteria: any other line leaves them open.
pub proof fn law_only_headings_end_criteria(body: Seq<Seq<char>>, s: Seq<char>)
    requires
        in_acceptance(body),
        !is_heading_like(s) || contains(lower_ascii(s), "acceptance"@),
    ensures
        in_acceptance(body.push(s)),
{
    assert(body.push(s).drop_last() =~= body);
    if !is_heading_like(s) {
        lemma_not_heading(s);
    }
}

/// Whether a line is one of the description: it is not blank, does not begin
/// with a hash, and does not open the criteria.
pub open spec fn is_prose(s: Seq<char>) -> bool {
    s.len() > 0 && s[0] != '#' && !(s.len() >= 10 && lower_ascii(s).take(10) == "acceptance"@
        && s.last() == ':')
}

/// A story without acceptance criteria is its lines, with a blank between two of
/// them.
pub proof fn law_prose_is_the_story(header: (Seq<char>, Seq<char>), body: Seq<Seq<char>>)
    requires
        body.len() > 0,
        forall|i: int| 0 <= i < body.len() ==> is_prose(#[trigger] body[i]),
    ensures
        ({
            let story = story_of(header, body);
            &&& story.id == header.0
            &&& story.title == header.1
            &&& story.acceptance.len() == 0
            &&& story.story == (if trim(join(body, " "@)).len() == 0 {
                None
            } else {
                Some(trim(join(body, " "@)))
            })
        }),
{
    lemma_prose(body);
}

proof fn lemma_prose(body: Seq<Seq<char>>)
    requires
        forall|i: int| 0 <= i < body.len() ==> is_prose(#[trigger] body[i]),
    ensures
        !in_acceptance(body),
        criteria_of(body).len() == 0,
        description_lines(body) == body,
    decreases body.len(),
{
    if body.len() > 0 {
        let front = body.drop_last();
        assert forall|i: int| 0 <= i < front.len() implies is_prose(#[trigger] front[i]) by {
            assert(front[i] == body[i]);
        }
        lemma_prose(front);
        let s = body.last();
        assert(is_prose(body[body.len() - 1]));
        lemma_opening(s);
        reveal_strlit("#");
        if starts_with(s, "#"@) {
            assert(s.take(1)[0] == s[0]);
        }
        assert(front.push(s) =~= body);
    } else {
        assert(description_lines(body) =~= body);
    }
}

/// A line of prose among the criteria that is no bullet goes to the description.
pub proof fn law_other_lines_are_description(body: Seq<Seq<char>>, s: Seq<char>)
    requires
        is_prose(s),
        !in_acceptance(body) || bullet_of(s) is None,
        !is_heading_like(s),
    ensures
        criteria_of(body.push(s)) == criteria_of(body),
        description_lines(body.push(s)) == description_lines(body).push(s),
{
    assert(body.push(s).drop_last() =~= body);
    lemma_opening(s);
    lemma_not_heading(s);
}

// ------------------------------------------------------------------------ bullets

proof fn lemma_trimmed_ends(s: Seq<char>)
    requires
        trim(s) == s,
        s.len() > 0,
    ensures
        !is_space(s[0]),
        !is_space(s.last()),
{
    if is_space(s.last()) {
        crate::text::lemma_trim_shorter(s);
    }
    if is_space(s[0]) {
        crate::text::lemma_trim_front_shorter(s);
    }
}

proof fn lemma_marked(m: Seq<char>, c: Seq<char>)
    requires
        m.len() > 0,
        !is_space(m[0]),
        c.len() > 0,
        trim(c) == c,
    ensures
        trim(m + c) == m + c,
        (m + c).skip(m.len() as int) == c,
{
    lemma_trimmed_ends(c);
    assert((m + c)[0] == m[0]);
    assert((m + c).last() == c.last());
    assert((m + c).skip(m.len() as int) =~= c);
}

/// A dash, a star or a bullet, each with a blank, or a number with a dot or a
/// bracket and a blank: what stands behind is the content.
pub proof fn law_bullet_markers(c: Seq<char>)
    requires
        c.len() > 0,
        trim(c) == c,
    ensures
        bullet_of("- "@ + c) == Some(c),
        bullet_of("* "@ + c) == Some(c),
        bullet_of("\u{2022} "@ + c) == Some(c),
{
    reveal_strlit("- ");
    reveal_strlit("* ");
    reveal_strlit("\u{2022} ");
    lemma_marked("- "@, c);
    lemma_marked("* "@, c);
    lemma_marked("\u{2022} "@, c);
    assert(("- "@ + c).take(2) =~= "- "@);
    assert(("* "@ + c).take(2) =~= "* "@);
    assert(("\u{2022} "@ + c).take(2) =~= "\u{2022} "@);
    assert(("* "@ + c).take(2)[0] != "- "@[0]);
    assert(("\u{2022} "@ + c).take(2)[0] != "- "@[0]);
    assert(("\u{2022} "@ + c).take(2)[0] != "* "@[0]);
}

/// A number with a dot or a bracket behind it and a blank marks a bullet too.
pub proof fn law_numbered_bullets(n: Seq<char>, c: Seq<char>)
    requires
        n.len() > 0,
        forall|i: int| 0 <= i < n.len() ==> is_digit(#[trigger] n[i]),
        c.len() > 0,
        trim(c) == c,
    ensures
        bullet_of(n + ". "@ + c) == Some(c),
        bullet_of(n + ") "@ + c) == Some(c),
{
    reveal_strlit(". ");
    reveal_strlit(") ");
    lemma_numbered(n, ". "@, c);
    lemma_numbered(n, ") "@, c);
}

proof fn lemma_numbered(n: Seq<char>, m: Seq<char>, c: Seq<char>)
    requires
        n.len() > 0,
        forall|i: int| 0 <= i < n.len() ==> is_digit(#[trigger] n[i]),
        c.len() > 0,
        trim(c) == c,
        m == ". "@ || m == ") "@,
    ensures
        bullet_of(n + m + c) == Some(c),
{
    reveal_strlit(". ");
    reveal_strlit(") ");
    reveal_strlit("- ");
    reveal_strlit("* ");
    reveal_strlit("\u{2022} ");
    let s = n + m + c;
    assert(is_digit(n[0]));
    lemma_marked(n + m, c);
    assert(s =~= n + (m + c));
    lemma_number_end(n, m + c);
    assert(s.skip(n.len() as int) =~= m + c);
    assert((m + c).take(2) =~= m);
    assert((m + c).skip(2) =~= c);
    assert(s[0] == n[0]);
    if starts_with(s, "- "@) {
        assert(s.take(2)[0] == s[0]);
    }
    if starts_with(s, "* "@) {
        assert(s.take(2)[0] == s[0]);
    }
    if starts_with(s, "\u{2022} "@) {
        assert(s.take(2)[0] == s[0]);
    }
}

proof fn lemma_number_end(n: Seq<char>, rest: Seq<char>)
    requires
        forall|i: int| 0 <= i < n.len() ==> is_digit(#[trigger] n[i]),
        rest.len() == 0 || !is_digit(rest[0]),
    ensures
        number_end(n + rest) == n.len(),
    decreases n.len(),
{
    let s = n + rest;
    if n.len() == 0 {
        assert(s =~= rest);
    } else {
        assert(is_digit(n[0]));
        assert(s[0] == n[0]);
        assert(s.skip(1) =~= n.skip(1) + rest);
        assert forall|i: int| 0 <= i < n.skip(1).len() implies is_digit(#[trigger] n.skip(1)[i]) by {
            assert(n.skip(1)[i] == n[i + 1]);
        }
        lemma_number_end(n.skip(1), rest);
    }
}

/// Any other line is no bullet: one that begins with another character, or with
/// a mark that has no blank behind it.
pub proof fn law_no_other_bullets(s: Seq<char>)
    requires
        trim(s) == s,
        s.len() < 2 || ((s[0] == '-' || s[0] == '*' || s[0] == '\u{2022}') && s[1] != ' ') || (s[0]
            != '-' && s[0] != '*' && s[0] != '\u{2022}' && !is_digit(s[0])),
    ensures
        bullet_of(s) is None,
{
    reveal_strlit(". ");
    reveal_strlit(") ");
    reveal_strlit("- ");
    reveal_strlit("* ");
    reveal_strlit("\u{2022} ");
    if s.len() >= 2 {
        assert(s.take(2)[0] == s[0] && s.take(2)[1] == s[1]);
    } else if s.len() == 1 {
        assert(number_end(s) <= 1) by {
            assert(number_end(s.skip(1)) == 0);
        }
    }
}

// ------------------------------------------------------------------------ headers

/// How many hashes stand before a header makes no difference.
pub proof fn law_hashes_make_no_difference(line: Seq<char>)
    ensures
        header_of(seq!['#'] + line) == header_of(line),
{
    assert((seq!['#'] + line).skip(1) =~= line);
}

/// Blanks between the hashes and a header make no difference.
pub proof fn law_blank_before_header(line: Seq<char>)
    requires
        line.len() > 0,
        line[0] != '#',
        line[0] != ' ',
    ensures
        header_of(seq![' '] + line) == header_of(line),
{
    assert((seq![' '] + line).skip(1) =~= line);
    assert(strip_start(line, '#') == line);
    assert(strip_start(seq![' '] + line, '#') == seq![' '] + line);
}

/// Whether a text is the identifier of a story: it begins with "US-", with at
/// least one more character, and holds neither blanks nor colons.
pub open spec fn is_story_id(id: Seq<char>) -> bool {
    &&& id.len() > 3
    &&& id.take(3) == "US-"@ || id.take(3) == "us-"@
    &&& forall|i: int| 0 <= i < id.len() ==> #[trigger] id[i] != ':' && !is_space(id[i])
}

/// Whether a text is a title as it stands: trimmed, and without quotes at its
/// ends.
pub open spec fn is_title(t: Seq<char>) -> bool {
    t.len() > 0 && trim(t) == t && t[0] != '"' && t.last() != '"'
}

proof fn lemma_id_end(id: Seq<char>, rest: Seq<char>, from: int)
    requires
        is_story_id(id),
        rest.len() > 0,
        rest[0] == ':' || rest[0] == ' ',
        0 <= from <= id.len(),
    ensures
        crate::prd_parser::id_end(id + rest, from) == id.len(),
    decreases id.len() - from,
{
    let s = id + rest;
    if from < id.len() {
        assert(s[from] == id[from]);
        assert(id[from] != ' ') by {
            assert(!is_space(id[from]));
        }
        lemma_id_end(id, rest, from + 1);
    } else {
        assert(s[from] == rest[0]);
    }
}

proof fn lemma_us_line(id: Seq<char>, rest: Seq<char>)
    requires
        is_story_id(id),
        rest.len() > 0,
        !is_space(rest.last()),
    ensures
        header_of(id + rest) == Some(crate::prd_parser::us_header(id + rest)),
{
    reveal_strlit("US-");
    reveal_strlit("us-");
    let s = id + rest;
    assert(s[0] == id[0]);
    assert(id[0] == id.take(3)[0]);
    assert(strip_start(s, '#') == s);
    assert(s.last() == rest.last());
    assert(!is_space(s[0]));
    assert(trim(s) == s);
    assert(s.take(3) =~= id.take(3));
}

/// A header gives its identifier, in upper case, and behind the colon its title.
pub proof fn law_header_gives_id_and_title(id: Seq<char>, title: Seq<char>)
    requires
        is_story_id(id),
        is_title(title),
    ensures
        header_of(id + ": "@ + title) == Some((uppercase(id), title)),
        header_of(id + ": \""@ + title + "\""@) == Some((uppercase(id), title)),
{
    reveal_strlit(": ");
    reveal_strlit(": \"");
    reveal_strlit("\"");
    reveal_strlit(":");
    lemma_trimmed_ends(title);
    let plain = ": "@ + title;
    let quoted = ": \""@ + title + "\""@;
    assert(id + ": "@ + title =~= id + plain);
    assert(id + ": \""@ + title + "\""@ =~= id + quoted);
    assert(plain.skip(1) =~= seq![' '] + title);
    assert(quoted.skip(1) =~= seq![' ', '"'] + title + seq!['"']);
    lemma_titled(id, plain, seq![' '] + title);
    lemma_titled(id, quoted, seq![' ', '"'] + title + seq!['"']);
    assert((seq![' '] + title).skip(1) =~= title);
    assert(trim_start(title) == title);
    assert(trim(seq![' '] + title) == title);
    lemma_no_quotes(title);
    let q = seq!['"'] + title + seq!['"'];
    assert((seq![' ', '"'] + title + seq!['"']).skip(1) =~= q);
    assert(!is_space(q[0]) && !is_space(q.last()));
    assert(trim_start(q) == q);
    assert(trim(seq![' ', '"'] + title + seq!['"']) == q);
    assert(q.skip(1) =~= title + seq!['"']);
    assert((title + seq!['"'])[0] == title[0]);
    assert(strip_start(title + seq!['"'], '"') == title + seq!['"']);
    assert(strip_start(q, '"') == title + seq!['"']);
    assert((title + seq!['"']).drop_last() =~= title);
    assert(strip_end(title + seq!['"'], '"') == title);
}

proof fn lemma_no_quotes(title: Seq<char>)
    requires
        is_title(title),
    ensures
        strip_both(title, '"') == title,
        strip_start(title, '"') == title,
        strip_end(title, '"') == title,
{
}

proof fn lemma_titled(id: Seq<char>, rest: Seq<char>, tail: Seq<char>)
    requires
        is_story_id(id),
        rest.len() > 0,
        rest[0] == ':',
        !is_space(rest.last()),
        rest.skip(1) == tail,
    ensures
        header_of(id + rest) == Some((uppercase(id), strip_both(trim(tail), '"'))),
{
    let s = id + rest;
    let n = id.len() as int;
    lemma_us_line(id, rest);
    lemma_id_end(id, rest, 0);
    reveal_strlit(":");
    assert(s.take(n) =~= id);
    assert(s.skip(n) =~= rest);
    assert(rest.subrange(0, 1) =~= ":"@);
    assert(crate::search::occurs_at(rest, ":"@, 0));
    crate::search::lemma_find_from(rest, ":"@, 0);
    assert(find(rest, ":"@) == Some(0int));
    assert(s.skip(n + 1) =~= tail);
}

/// A header without a colon has its title behind the blank.
pub proof fn law_header_without_colon(id: Seq<char>, title: Seq<char>)
    requires
        is_story_id(id),
        is_title(title),
        !contains(title, ":"@),
    ensures
        header_of(id + " "@ + title) == Some((uppercase(id), title)),
{
    reveal_strlit(" ");
    reveal_strlit(":");
    lemma_trimmed_ends(title);
    let rest = " "@ + title;
    let s = id + rest;
    let n = id.len() as int;
    assert(id + " "@ + title =~= s);
    lemma_us_line(id, rest);
    lemma_id_end(id, rest, 0);
    assert(s.take(n) =~= id);
    assert(s.skip(n) =~= rest);
    assert(!contains(rest, ":"@)) by {
        if contains(rest, ":"@) {
            let i = choose|i: int| crate::search::occurs_at(rest, ":"@, i);
            assert(rest.subrange(i, i + 1)[0] == rest[i]);
            assert(i > 0);
            assert(title.subrange(i - 1, i) =~= rest.subrange(i, i + 1));
            assert(crate::search::occurs_at(title, ":"@, i - 1));
        }
    }
    crate::search::lemma_find_contains(rest, ":"@);
    assert(rest.skip(1) =~= title);
    assert(trim_start(title) == title);
    assert(trim(rest) == title);
    lemma_no_quotes(title);
}

/// "User Story" with a number and a colon gives "US-" and the number, and the
/// title behind the colon. Another name stands for itself, in upper case.
pub proof fn law_user_story_header(words: Seq<char>, name: Seq<char>, title: Seq<char>)
    requires
        words.len() == 10,
        lower_ascii(words) == "user story"@,
        name.len() > 0,
        trim(name) == name,
        !contains(name, ":"@),
        title.len() > 0,
        trim(title) == title,
    ensures
        ({
            let digits = forall|i: int| 0 <= i < name.len() ==> is_digit(#[trigger] name[i]);
            let header = header_of(words + " "@ + name + ": "@ + title);
            &&& digits ==> header == Some(("US-"@ + name, title))
            &&& !digits ==> header == Some((uppercase(name), title))
        }),
{
    reveal_strlit("US-");
    reveal_strlit("us-");
    reveal_strlit("user story");
    reveal_strlit(" ");
    reveal_strlit(": ");
    reveal_strlit(":");
    lemma_trimmed_ends(name);
    lemma_trimmed_ends(title);
    let tail = seq![' '] + title;
    let rest = name + seq![':'] + tail;
    assert(words + " "@ + name + ": "@ + title =~= words + seq![' '] + rest);
    lemma_words_line(words, rest);
    lemma_first_colon(name, tail);
    assert(rest.take(name.len() as int) =~= name);
    assert(rest.skip(name.len() as int + 1) =~= tail);
    assert(tail.skip(1) =~= title);
    assert(trim_start(title) == title);
    assert(trim(tail) == title);
}

proof fn lemma_words_line(words: Seq<char>, rest: Seq<char>)
    requires
        words.len() == 10,
        lower_ascii(words) == "user story"@,
        rest.len() > 0,
        !is_space(rest[0]),
        !is_space(rest.last()),
    ensures
        ({
            let s = words + seq![' '] + rest;
            &&& header_of(s) == crate::prd_parser::story_header(s)
            &&& trim(s.skip("user story"@.len() as int)) == rest
        }),
{
    reveal_strlit("US-");
    reveal_strlit("us-");
    reveal_strlit("user story");
    let s = words + seq![' '] + rest;
    let low = "user story"@;
    assert(low[0] == lower_char(words[0]));
    assert(low[2] == lower_char(words[2]));
    assert(s[0] == words[0] && s[2] == words[2]);
    assert(strip_start(s, '#') == s);
    assert(s.last() == rest.last());
    assert(trim_start(s) == s);
    assert(trim(s) == s);
    if starts_with(s, "US-"@) {
        assert(s.take(3)[2] == s[2]);
    }
    if starts_with(s, "us-"@) {
        assert(s.take(3)[2] == s[2]);
    }
    assert(lower_ascii(s).subrange(0, 10) =~= lower_ascii(words));
    assert(s.skip(10) =~= seq![' '] + rest);
    assert((seq![' '] + rest).skip(1) =~= rest);
    assert(trim_start(rest) == rest);
    assert(trim(s.skip(10)) == rest);
}

proof fn lemma_first_colon(name: Seq<char>, tail: Seq<char>)
    requires
        !contains(name, ":"@),
    ensures
        find(name + seq![':'] + tail, ":"@) == Some(name.len() as int),
{
    reveal_strlit(":");
    let s = name + seq![':'] + tail;
    let n = name.len() as int;
    assert(s.subrange(n, n + 1) =~= ":"@);
    assert(crate::search::occurs_at(s, ":"@, n));
    assert forall|k: int| 0 <= k < n implies !#[trigger] crate::search::occurs_at(s, ":"@, k) by {
        if crate::search::occurs_at(s, ":"@, k) {
            assert(name.subrange(k, k + 1) =~= s.subrange(k, k + 1));
            assert(crate::search::occurs_at(name, ":"@, k));
        }
    }
    crate::search::lemma_find_from(s, ":"@, 0);
}

/// No other line is a header: it begins, behind hashes and blanks, with a "u".
pub proof fn law_headers_begin_with_u(line: Seq<char>)
    requires
        header_of(line) is Some,
    ensures
        ({
            let s = trim(strip_start(line, '#'));
            s.len() > 0 && (s[0] == 'U' || s[0] == 'u')
        }),
{
    reveal_strlit("US-");
    reveal_strlit("us-");
    reveal_strlit("user story");
    let s = trim(strip_start(line, '#'));
    if starts_with(s, "US-"@) {
        assert(s.take(3)[0] == s[0]);
    } else if starts_with(s, "us-"@) {
        assert(s.take(3)[0] == s[0]);
    } else {
        assert(lower_ascii(s).take(10)[0] == lower_char(s[0]));
    }
}

// --------------------------------------------------------------- stories and tasks

/// A story reaches from its header to the next: lines that follow a header and
/// are none themselves are its own, trimmed and in order.
pub proof fn law_story_has_its_lines(header: Seq<char>, rest: Seq<Seq<char>>)
    requires
        header_of(trim(header)) is Some,
        forall|i: int| 0 <= i < rest.len() ==> header_of(trim(#[trigger] rest[i])) is None,
    ensures
        stories_in(seq![header] + rest) == seq![
            story_of(
                header_of(trim(header))->0,
                Seq::new(rest.len(), |i: int| trim(rest[i])),
            ),
        ],
{
    lemma_section_lines(header, rest);
    assert(stories_in(seq![header] + rest) =~= seq![
        story_of(header_of(trim(header))->0, Seq::new(rest.len(), |i: int| trim(rest[i]))),
    ]);
}

proof fn lemma_section_lines(header: Seq<char>, rest: Seq<Seq<char>>)
    requires
        header_of(trim(header)) is Some,
        forall|i: int| 0 <= i < rest.len() ==> header_of(trim(#[trigger] rest[i])) is None,
    ensures
        sections_of(seq![header] + rest) == seq![
            (header_of(trim(header))->0, Seq::new(rest.len(), |i: int| trim(rest[i]))),
        ],
    decreases rest.len(),
{
    let ls = seq![header] + rest;
    let body = Seq::new(rest.len(), |i: int| trim(rest[i]));
    if rest.len() == 0 {
        assert(ls.drop_last() =~= Seq::<Seq<char>>::empty());
        assert(ls.last() == header);
        assert(body =~= Seq::<Seq<char>>::empty());
        assert(sections_of(ls.drop_last()) =~= Seq::<Section>::empty());
        assert(sections_of(ls) =~= seq![(header_of(trim(header))->0, body)]);
    } else {
        let front = rest.drop_last();
        assert forall|i: int| 0 <= i < front.len() implies header_of(
            trim(#[trigger] front[i]),
        ) is None by {
            assert(front[i] == rest[i]);
        }
        lemma_section_lines(header, front);
        assert(ls.drop_last() =~= seq![header] + front);
        assert(ls.last() == rest[rest.len() - 1]);
        let before = Seq::new(front.len(), |i: int| trim(front[i]));
        assert(body =~= before.push(trim(rest.last())));
        assert(sections_of(ls.drop_last()) == seq![(header_of(trim(header))->0, before)]);
        assert(header_of(trim(ls.last())) is None);
        assert(sections_of(ls)[0].1 =~= body);
        assert(sections_of(ls) =~= seq![(header_of(trim(header))->0, body)]);
    }
}

/// Text before the first header belongs to no story.
pub proof fn law_text_before_stories_is_left_out(ls: Seq<Seq<char>>)
    requires
        forall|i: int| 0 <= i < ls.len() ==> header_of(trim(#[trigger] ls[i])) is None,
    ensures
        stories_in(ls).len() == 0,
    decreases ls.len(),
{
    if ls.len() > 0 {
        let front = ls.drop_last();
        assert forall|i: int| 0 <= i < front.len() implies header_of(
            trim(#[trigger] front[i]),
        ) is None by {
            assert(front[i] == ls[i]);
        }
        law_text_before_stories_is_left_out(front);
        assert(header_of(trim(ls[ls.len() - 1])) is None);
    }
}

/// The identifier of a task is that of its story in lower case, with a dash for
/// each blank.
pub proof fn law_task_id_follows_story_id(story: StoryView)
    ensures
        ({
            let low = lowercase(story.id);
            let id = task_of(story).id;
            &&& id.len() == low.len()
            &&& forall|i: int|
                0 <= i < low.len() ==> #[trigger] id[i] == (if low[i] == ' ' {
                    '-'
                } else {
                    low[i]
                })
        }),
{
    reveal_strlit("-");
    lemma_dashed(lowercase(story.id));
}

proof fn lemma_dashed(s: Seq<char>)
    ensures
        ({
            let t = replace_char(s, ' ', "-"@);
            &&& t.len() == s.len()
            &&& forall|i: int|
                0 <= i < s.len() ==> #[trigger] t[i] == (if s[i] == ' ' {
                    '-'
                } else {
                    s[i]
                })
        }),
    decreases s.len(),
{
    reveal_strlit("-");
    if s.len() > 0 {
        lemma_dashed(s.drop_last());
    }
}

} // verus!
