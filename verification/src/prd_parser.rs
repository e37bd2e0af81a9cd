//! Extracts tasks from product requirements documents in Markdown.
//!
//! A user story begins with a header line and reaches up to the next one. The
//! bullet points after its "Acceptance:" line are its acceptance criteria, and
//! the other lines are its description.

use vstd::prelude::*;

use crate::letters::{is_ascii_text, lower_ascii, lowercase, lowered, upper_ascii, uppercase};
use crate::number::is_digit;
use crate::search::{
    begins, contains, ends, ends_with, find, holds, index_of, join, lemma_split_concat,
    lemma_split_len, lines, lines_of, replace_char, replaced, split, starts_with, without_cr,
};
use crate::task::{Task, TaskStatus, TaskView};
use crate::text::{
    chars_of, clone_opt_string, clone_strings, lemma_trim_push, lemma_views_push, opt_view, owned, slice, string_of,
    strip_both, strip_start, stripped, stripped_start, trim, trimmed, views,
};

verus! {

/// Extracted user story from a PRD.
#[derive(Debug)]
pub struct UserStory {
    /// User story identifier (e.g., "US-1").
    pub id: String,
    /// User story title.
    pub title: String,
    /// Full user story text (the "As a... I want... so that..." part).
    pub story: Option<String>,
    /// Acceptance criteria.
    pub acceptance: Vec<String>,
}

/// What a user story says.
#[verifier::ext_equal]
pub struct StoryView {
    pub id: Seq<char>,
    pub title: Seq<char>,
    pub story: Option<Seq<char>>,
    pub acceptance: Seq<Seq<char>>,
}

impl View for UserStory {
    type V = StoryView;

    open spec fn view(&self) -> StoryView {
        StoryView {
            id: self.id@,
            title: self.title@,
            story: opt_view(self.story),
            acceptance: views(self.acceptance@),
        }
    }
}

impl Clone for UserStory {
    fn clone(&self) -> (r: Self)
        ensures
            r@ == self@,
    {
        UserStory {
            id: self.id.clone(),
            title: self.title.clone(),
            story: clone_opt_string(&self.story),
            acceptance: clone_strings(&self.acceptance),
        }
    }
}

// --------------------------------------------------------------------- headers

/// Where the identifier of a "US-" header ends: at its first colon, or at its
/// first space that has a character between it and "US-".
pub open spec fn id_end(s: Seq<char>, from: int) -> int
    decreases s.len() - from,
{
    if from < 0 || from >= s.len() {
        s.len() as int
    } else if s[from] == ':' || (s[from] == ' ' && from > 3) {
        from
    } else {
        id_end(s, from + 1)
    }
}

/// Where the title of a "US-" header starts: after the first colon that follows
/// the identifier, or right after the identifier where there is none.
pub open spec fn title_start(s: Seq<char>, end: int) -> int {
    match find(s.skip(end), ":"@) {
        Some(i) => end + i + 1,
        None => end,
    }
}

pub open spec fn all_digits(s: Seq<char>) -> bool {
    forall|i: int| 0 <= i < s.len() ==> is_digit(#[trigger] s[i])
}

/// The identifier and the title in a header such as "US-1: Title".
pub open spec fn us_header(s: Seq<char>) -> (Seq<char>, Seq<char>) {
    let end = id_end(s, 0);
    (uppercase(s.take(end)), strip_both(trim(s.skip(title_start(s, end))), '"'))
}

/// The identifier and the title in a header such as "User Story 1: Title".
pub open spec fn story_header(s: Seq<char>) -> Option<(Seq<char>, Seq<char>)> {
    let rest = trim(s.skip("user story"@.len() as int));
    match find(rest, ":"@) {
        Some(colon) => {
            let name = trim(rest.take(colon));
            Some(
                (
                    if all_digits(name) {
                        "US-"@ + name
                    } else {
                        uppercase(name)
                    },
                    trim(rest.skip(colon + 1)),
                ),
            )
        },
        None => None,
    }
}

/// The identifier and the title that a line gives, where it is a header.
pub open spec fn header_of(line: Seq<char>) -> Option<(Seq<char>, Seq<char>)> {
    let s = trim(strip_start(line, '#'));
    if starts_with(s, "US-"@) || starts_with(s, "us-"@) {
        Some(us_header(s))
    } else if starts_with(lower_ascii(s), "user story"@) {
        story_header(s)
    } else {
        None
    }
}

/// The story that begins with the given header.
pub open spec fn new_story(header: (Seq<char>, Seq<char>)) -> StoryView {
    StoryView { id: header.0, title: header.1, story: None, acceptance: Seq::empty() }
}

// --------------------------------------------------------------------- bullets

/// `s` without the prefix `p`, trimmed.
pub open spec fn after(s: Seq<char>, p: Seq<char>) -> Seq<char> {
    trim(s.skip(p.len() as int))
}

/// Where the digits end that `s` begins with.
pub open spec fn number_end(s: Seq<char>) -> int
    decreases s.len(),
{
    if s.len() > 0 && is_digit(s[0]) {
        1 + number_end(s.skip(1))
    } else {
        0
    }
}

/// The content of a bullet point: what stands behind the bullet, or behind a
/// number with a dot or a bracket.
pub open spec fn bullet_of(line: Seq<char>) -> Option<Seq<char>> {
    let s = trim(line);
    if starts_with(s, "- "@) {
        Some(after(s, "- "@))
    } else if starts_with(s, "* "@) {
        Some(after(s, "* "@))
    } else if starts_with(s, "\u{2022} "@) {
        Some(after(s, "\u{2022} "@))
    } else {
        let rest = s.skip(number_end(s));
        if number_end(s) > 0 && (starts_with(rest, ". "@) || starts_with(rest, ") "@)) {
            Some(trim(rest.skip(2)))
        } else {
            None
        }
    }
}

// -------------------------------------------------------------------- sections

/// Whether a trimmed line opens the acceptance criteria.
pub open spec fn opens_acceptance(s: Seq<char>) -> bool {
    starts_with(lower_ascii(s), "acceptance"@) && ends_with(s, ":"@)
}

/// Whether a trimmed line is a heading that ends the acceptance criteria.
pub open spec fn closes_acceptance(s: Seq<char>) -> bool {
    (starts_with(s, "#"@) || (starts_with(s, "**"@) && ends_with(s, "**"@))) && !contains(
        lower_ascii(s),
        "acceptance"@,
    )
}

/// Whether the line after the trimmed lines `body` stands among the criteria.
pub open spec fn in_acceptance(body: Seq<Seq<char>>) -> bool
    decreases body.len(),
{
    if body.len() == 0 {
        false
    } else if opens_acceptance(body.last()) {
        true
    } else if closes_acceptance(body.last()) {
        false
    } else {
        in_acceptance(body.drop_last())
    }
}

/// The criterion that the last of the trimmed lines `body` gives.
pub open spec fn last_criterion(body: Seq<Seq<char>>) -> Option<Seq<char>> {
    if !opens_acceptance(body.last()) && in_acceptance(body) {
        bullet_of(body.last())
    } else {
        None
    }
}

/// The acceptance criteria among the trimmed lines of a story.
pub open spec fn criteria_of(body: Seq<Seq<char>>) -> Seq<Seq<char>>
    decreases body.len(),
{
    if body.len() == 0 {
        Seq::empty()
    } else {
        let front = criteria_of(body.drop_last());
        match last_criterion(body) {
            Some(c) => front.push(c),
            None => front,
        }
    }
}

/// The lines of the description among the trimmed lines of a story: those that
/// are not empty, no headings, and not part of the acceptance criteria.
pub open spec fn description_lines(body: Seq<Seq<char>>) -> Seq<Seq<char>>
    decreases body.len(),
{
    if body.len() == 0 {
        Seq::empty()
    } else {
        let front = description_lines(body.drop_last());
        let s = body.last();
        if opens_acceptance(s) || last_criterion(body) is Some || s.len() == 0 || starts_with(
            s,
            "#"@,
        ) {
            front
        } else {
            front.push(s)
        }
    }
}

/// The description of a story, where it has one.
pub open spec fn description_of(body: Seq<Seq<char>>) -> Option<Seq<char>> {
    let text = trim(join(description_lines(body), " "@));
    if text.len() == 0 {
        None
    } else {
        Some(text)
    }
}

/// The story with the given header and trimmed lines.
pub open spec fn story_of(header: (Seq<char>, Seq<char>), body: Seq<Seq<char>>) -> StoryView {
    StoryView {
        id: header.0,
        title: header.1,
        story: description_of(body),
        acceptance: criteria_of(body),
    }
}

/// A header and the trimmed lines behind it.
pub type Section = ((Seq<char>, Seq<char>), Seq<Seq<char>>);

/// The sections of a document: each header with the trimmed lines up to the
/// next one. Lines before the first header belong to none.
pub open spec fn sections_of(ls: Seq<Seq<char>>) -> Seq<Section>
    decreases ls.len(),
{
    if ls.len() == 0 {
        Seq::empty()
    } else {
        let front = sections_of(ls.drop_last());
        let s = trim(ls.last());
        match header_of(s) {
            Some(h) => front.push((h, Seq::empty())),
            None => if front.len() == 0 {
                front
            } else {
                front.drop_last().push((front.last().0, front.last().1.push(s)))
            },
        }
    }
}

/// The user stories of a document.
pub open spec fn stories_of(content: Seq<char>) -> Seq<StoryView> {
    sections_of(lines(content)).map_values(
        |s: Section| story_of(s.0, s.1),
    )
}

/// The task that a user story stands for.
pub open spec fn task_of(story: StoryView) -> TaskView {
    TaskView {
        id: replace_char(lowercase(story.id), ' ', "-"@),
        title: story.title,
        status: TaskStatus::Todo,
        acceptance: story.acceptance,
        validators: Seq::empty(),
        notes: story.story,
    }
}

/// The tasks that user stories stand for.
pub open spec fn tasks_of(stories: Seq<StoryView>) -> Seq<TaskView> {
    stories.map_values(|s: StoryView| task_of(s))
}

// ------------------------------------------------------------------------ laws

/// How many of the lines are headers.
pub open spec fn header_count(ls: Seq<Seq<char>>) -> nat
    decreases ls.len(),
{
    if ls.len() == 0 {
        0
    } else {
        header_count(ls.drop_last()) + if header_of(trim(ls.last())) is Some {
            1nat
        } else {
            0nat
        }
    }
}

/// A document has one user story for each header line.
pub proof fn law_one_story_per_header(content: Seq<char>)
    ensures
        stories_of(content).len() == header_count(lines(content)),
{
    lemma_section_count(lines(content));
}

proof fn lemma_section_count(ls: Seq<Seq<char>>)
    ensures
        sections_of(ls).len() == header_count(ls),
    decreases ls.len(),
{
    if ls.len() > 0 {
        lemma_section_count(ls.drop_last());
    }
}

/// Two documents with a line break between them, the second of which begins
/// with a header, have the stories of the first and then those of the second.
pub proof fn law_stories_add_up(first: Seq<char>, second: Seq<char>)
    requires
        lines(second).len() > 0,
        header_of(trim(lines(second)[0])) is Some,
    ensures
        stories_of(first + "\n"@ + second) == stories_of(first) + stories_of(second),
{
    reveal_strlit("\n");
    assert("\n"@ =~= seq!['\n']);
    let whole = first + seq!['\n'] + second;
    let ps = split(first, '\n');
    let qs = split(second, '\n');
    lemma_split_concat(first, '\n', second);
    lemma_split_len(first, '\n');
    lemma_split_len(second, '\n');
    let closed = Seq::new(ps.len(), |i: int| without_cr(ps[i]));
    assert(lines(whole) =~= closed + lines(second));
    lemma_sections_concat(closed, lines(second));
    let f = |s: Section| story_of(s.0, s.1);
    let ls = lines(first);
    assert forall|i: int| 0 <= i < ls.len() implies trim(#[trigger] ls[i]) == trim(closed[i]) by {
        lemma_trim_cr(ps[i]);
    }
    if ls.len() < ps.len() {
        assert(closed.last() =~= Seq::<char>::empty());
        assert forall|i: int| 0 <= i < ls.len() implies trim(#[trigger] ls[i]) == trim(
            closed.drop_last()[i],
        ) by {
            assert(closed.drop_last()[i] == closed[i]);
        }
        lemma_sections_trimmed(ls, closed.drop_last());
        lemma_empty_line(closed);
    } else {
        lemma_sections_trimmed(ls, closed);
    }
    assert(sections_of(closed).map_values(f) == stories_of(first));
    assert(stories_of(whole) =~= stories_of(first) + stories_of(second));
}

proof fn lemma_trim_cr(s: Seq<char>)
    ensures
        trim(without_cr(s)) == trim(s),
{
    if s.len() > 0 && s.last() == '\r' {
        lemma_trim_push(s.drop_last(), '\r');
        assert(s.drop_last().push('\r') =~= s);
    }
}

proof fn lemma_sections_concat(a: Seq<Seq<char>>, b: Seq<Seq<char>>)
    requires
        b.len() > 0,
        header_of(trim(b[0])) is Some,
    ensures
        sections_of(a + b) == sections_of(a) + sections_of(b),
        sections_of(b).len() > 0,
    decreases b.len(),
{
    assert((a + b).drop_last() =~= a + b.drop_last());
    assert((a + b).last() == b.last());
    if b.len() == 1 {
        assert(a + b.drop_last() =~= a);
        assert(b.drop_last() =~= Seq::<Seq<char>>::empty());
    } else {
        lemma_sections_concat(a, b.drop_last());
    }
    assert(sections_of(a + b) =~= sections_of(a) + sections_of(b));
}

proof fn lemma_sections_trimmed(a: Seq<Seq<char>>, b: Seq<Seq<char>>)
    requires
        a.len() == b.len(),
        forall|i: int| 0 <= i < a.len() ==> trim(#[trigger] a[i]) == trim(b[i]),
    ensures
        sections_of(a) == sections_of(b),
    decreases a.len(),
{
    if a.len() > 0 {
        assert forall|i: int| 0 <= i < a.drop_last().len() implies trim(
            #[trigger] a.drop_last()[i],
        ) == trim(b.drop_last()[i]) by {
            assert(a.drop_last()[i] == a[i]);
        }
        lemma_sections_trimmed(a.drop_last(), b.drop_last());
        assert(trim(a[a.len() - 1]) == trim(b[b.len() - 1]));
    }
}

/// An empty line at the end changes no story.
proof fn lemma_empty_line(ls: Seq<Seq<char>>)
    requires
        ls.len() > 0,
        ls.last() == Seq::<char>::empty(),
    ensures
        sections_of(ls).map_values(|s: Section| story_of(s.0, s.1)) == sections_of(
            ls.drop_last(),
        ).map_values(|s: Section| story_of(s.0, s.1)),
{
    let e = Seq::<char>::empty();
    reveal_strlit("US-");
    reveal_strlit("us-");
    reveal_strlit("user story");
    assert(header_of(e) is None);
    let front = sections_of(ls.drop_last());
    let f = |s: Section| story_of(s.0, s.1);
    if front.len() > 0 {
        lemma_empty_in_story(front.last().1);
        assert(sections_of(ls).map_values(f) =~= front.map_values(f));
    }
}

proof fn lemma_empty_in_story(body: Seq<Seq<char>>)
    ensures
        criteria_of(body.push(Seq::empty())) == criteria_of(body),
        description_of(body.push(Seq::empty())) == description_of(body),
{
    let e = Seq::<char>::empty();
    assert(body.push(e).drop_last() =~= body);
    reveal_strlit("acceptance");
    reveal_strlit("- ");
    reveal_strlit("* ");
    reveal_strlit("\u{2022} ");
    assert(!opens_acceptance(e));
    assert(bullet_of(e) is None);
}

/// Stories become tasks one for one, in order, all to do and without
/// validators, with the story's title, criteria and text.
pub proof fn law_tasks_follow_stories(stories: Seq<StoryView>)
    ensures
        tasks_of(stories).len() == stories.len(),
        forall|i: int|
            0 <= i < stories.len() ==> {
                let t = #[trigger] tasks_of(stories)[i];
                &&& t.status == TaskStatus::Todo
                &&& t.title == stories[i].title
                &&& t.acceptance == stories[i].acceptance
                &&& t.notes == stories[i].story
                &&& t.validators.len() == 0
            },
{
}

/// The identifiers of tasks hold no spaces.
pub proof fn law_task_ids_have_no_spaces(story: StoryView)
    ensures
        !task_of(story).id.contains(' '),
{
    reveal_strlit("-");
    lemma_replaced_gone(lowercase(story.id), ' ', "-"@);
}

proof fn lemma_replaced_gone(s: Seq<char>, c: char, with: Seq<char>)
    requires
        !with.contains(c),
    ensures
        !replace_char(s, c, with).contains(c),
    decreases s.len(),
{
    if s.len() > 0 {
        lemma_replaced_gone(s.drop_last(), c, with);
        let front = replace_char(s.drop_last(), c, with);
        let whole = replace_char(s, c, with);
        assert forall|i: int| 0 <= i < whole.len() implies #[trigger] whole[i] != c by {
            if i < front.len() {
                assert(front[i] == whole[i]);
                assert(front.contains(front[i]));
            } else if s.last() == c {
                assert(with[i - front.len()] == whole[i]);
                assert(with.contains(with[i - front.len()]));
            }
        }
    }
}

// ------------------------------------------------------------------- execution

fn find_id_end(s: &Vec<char>) -> (r: usize)
    ensures
        r == id_end(s@, 0),
        r <= s@.len(),
{
    let n = s.len();
    let mut i: usize = 0;
    while i < n
        invariant
            n == s@.len(),
            i <= n,
            id_end(s@, 0) == id_end(s@, i as int),
        decreases n - i,
    {
        if s[i] == ':' || (s[i] == ' ' && i > 3) {
            return i;
        }
        i += 1;
    }
    n
}

fn upper_text(v: &Vec<char>) -> (r: String)
    ensures
        r@ == uppercase(v@),
        is_ascii_text(v@) ==> r@ == upper_ascii(v@),
{
    string_of(v).as_str().to_uppercase()
}

fn digits_only(v: &Vec<char>) -> (r: bool)
    ensures
        r == all_digits(v@),
{
    let n = v.len();
    for i in 0..n
        invariant
            n == v@.len(),
            forall|k: int| 0 <= k < i ==> is_digit(#[trigger] v@[k]),
    {
        if v[i] < '0' || v[i] > '9' {
            assert(!is_digit(v@[i as int]));
            return false;
        }
    }
    true
}

/// The rest of a text after the character at `i`.
fn from_index(v: &Vec<char>, i: usize) -> (r: Vec<char>)
    requires
        i <= v@.len(),
    ensures
        r@ == v@.skip(i as int),
{
    assert(v@.subrange(i as int, v@.len() as int) =~= v@.skip(i as int));
    slice(v, i, v.len())
}

fn up_to_index(v: &Vec<char>, i: usize) -> (r: Vec<char>)
    requires
        i <= v@.len(),
    ensures
        r@ == v@.take(i as int),
{
    assert(v@.subrange(0, i as int) =~= v@.take(i as int));
    slice(v, 0, i)
}

/// The index after the first colon.
fn colon_of(v: &Vec<char>) -> (r: Option<usize>)
    ensures
        match r {
            Some(i) => find(v@, ":"@) == Some(i as int) && i < v@.len(),
            None => find(v@, ":"@) is None,
        },
{
    proof {
        reveal_strlit(":");
        crate::search::lemma_find_from(v@, ":"@, 0);
    }
    index_of(v, &chars_of(":"))
}

fn read_us_header(s: &Vec<char>) -> (r: UserStory)
    ensures
        r@ == new_story(us_header(s@)),
{
    let end = find_id_end(s);
    let n = s.len();
    assert(n == s@.len());
    let start = match colon_of(&from_index(s, end)) {
        Some(i) => end + i + 1,
        None => end,
    };
    let title = stripped(&trimmed(&from_index(s, start)), '"');
    UserStory {
        id: upper_text(&up_to_index(s, end)),
        title: string_of(&title),
        story: None,
        acceptance: Vec::new(),
    }
}

fn read_story_header(s: &Vec<char>) -> (r: Option<UserStory>)
    requires
        starts_with(lower_ascii(s@), "user story"@),
    ensures
        match r {
            Some(u) => story_header(s@) is Some && u@ == new_story(story_header(s@)->0),
            None => story_header(s@) is None,
        },
{
    proof {
        reveal_strlit("user story");
    }
    let rest = trimmed(&from_index(s, 10));
    let n = rest.len();
    assert(n == rest@.len());
    match colon_of(&rest) {
        Some(colon) => {
            let name = trimmed(&up_to_index(&rest, colon));
            let id = if digits_only(&name) {
                owned("US-").concat(string_of(&name).as_str())
            } else {
                upper_text(&name)
            };
            let title = trimmed(&from_index(&rest, colon + 1));
            Some(UserStory { id, title: string_of(&title), story: None, acceptance: Vec::new() })
        },
        None => None,
    }
}

fn read_header(line: &Vec<char>) -> (r: Option<UserStory>)
    ensures
        match r {
            Some(u) => header_of(line@) is Some && u@ == new_story(header_of(line@)->0),
            None => header_of(line@) is None,
        },
{
    let s = trimmed(&stripped_start(line, '#'));
    if begins(&s, &chars_of("US-")) || begins(&s, &chars_of("us-")) {
        Some(read_us_header(&s))
    } else if begins(&lowered(&s), &chars_of("user story")) {
        read_story_header(&s)
    } else {
        None
    }
}

/// Parse a user story header line.
/// Returns Some(UserStory) if the line is a valid user story header.
///
/// The words "user story" count in any mixture of upper and lower case. Only
/// ASCII letters have a lower-case form among theirs.
pub fn parse_user_story_header(line: &str) -> (r: Option<UserStory>)
    ensures
        match r {
            Some(u) => header_of(line@) is Some && u@ == new_story(header_of(line@)->0),
            None => header_of(line@) is None,
        },
{
    read_header(&chars_of(line))
}

fn read_bullet(line: &Vec<char>) -> (r: Option<String>)
    ensures
        opt_view(r) == bullet_of(line@),
{
    proof {
        reveal_strlit("- ");
        reveal_strlit("* ");
        reveal_strlit("\u{2022} ");
        reveal_strlit(". ");
        reveal_strlit(") ");
    }
    let s = trimmed(line);
    if begins(&s, &chars_of("- ")) || begins(&s, &chars_of("* ")) || begins(
        &s,
        &chars_of("\u{2022} "),
    ) {
        return Some(string_of(&trimmed(&from_index(&s, 2))));
    }
    let mut n: usize = 0;
    assert(s@.skip(0) =~= s@);
    while n < s.len() && '0' <= s[n] && s[n] <= '9'
        invariant
            n <= s@.len(),
            number_end(s@) == n + number_end(s@.skip(n as int)),
        decreases s@.len() - n,
    {
        assert(s@.skip(n as int).skip(1) =~= s@.skip(n + 1));
        n += 1;
    }
    let rest = from_index(&s, n);
    if n > 0 && (begins(&rest, &chars_of(". ")) || begins(&rest, &chars_of(") "))) {
        return Some(string_of(&trimmed(&from_index(&rest, 2))));
    }
    None
}

/// Parse a bullet point line and return the content.
pub fn parse_bullet(line: &str) -> (r: Option<String>)
    ensures
        opt_view(r) == bullet_of(line@),
{
    read_bullet(&chars_of(line))
}

/// The story that the parser is in the middle of.
struct OpenStory {
    story: UserStory,
    in_acceptance: bool,
    text: String,
}

spec fn open_matches(
    open: OpenStory,
    section: Section,
) -> bool {
    &&& open.story.id@ == section.0.0
    &&& open.story.title@ == section.0.1
    &&& open.story.story is None
    &&& views(open.story.acceptance@) == criteria_of(section.1)
    &&& open.in_acceptance == in_acceptance(section.1)
    &&& open.text@ == join(description_lines(section.1), " "@)
    &&& forall|i: int|
        0 <= i < description_lines(section.1).len() ==> (#[trigger] description_lines(
            section.1,
        )[i]).len() > 0
}

fn close_story(
    open: OpenStory,
    Ghost(section): Ghost<Section>,
) -> (r: UserStory)
    requires
        open_matches(open, section),
    ensures
        r@ == story_of(section.0, section.1),
{
    let text = trimmed(&chars_of(open.text.as_str()));
    let mut story = open.story;
    if text.len() > 0 {
        story.story = Some(string_of(&text));
    }
    story
}

/// Takes one more trimmed line, which is no header, into the open story.
fn take_line(
    open: &mut OpenStory,
    s: &Vec<char>,
    Ghost(section): Ghost<Section>,
)
    requires
        open_matches(*old(open), section),
    ensures
        open_matches(*final(open), (section.0, section.1.push(s@))),
{
    let ghost body = section.1.push(s@);
    let ghost lines_before = description_lines(section.1);
    proof {
        assert(body.drop_last() =~= section.1);
        assert(body.last() == s@);
    }
    let low = lowered(s);
    if begins(&low, &chars_of("acceptance")) && ends(s, &chars_of(":")) {
        open.in_acceptance = true;
        return ;
    }
    let hash = begins(s, &chars_of("#"));
    let stars = chars_of("**");
    if (hash || (begins(s, &stars) && ends(s, &stars))) && !holds(&low, &chars_of("acceptance")) {
        open.in_acceptance = false;
    }
    let criterion = if open.in_acceptance {
        read_bullet(s)
    } else {
        None
    };
    match criterion {
        Some(c) => {
            broadcast use lemma_views_push;

            open.story.acceptance.push(c);
        },
        None => {
            if s.len() > 0 && !hash {
                let line = string_of(s);
                proof {
                    lemma_join_push(lines_before, s@, " "@);
                    lemma_join_empty(lines_before, " "@);
                    reveal_strlit(" ");
                }
                if open.text.as_str().unicode_len() > 0 {
                    open.text.append(" ");
                }
                open.text.append(line.as_str());
                assert(open.text@ =~= join(lines_before.push(s@), " "@));
            }
        },
    }
}

proof fn lemma_join_push(parts: Seq<Seq<char>>, s: Seq<char>, sep: Seq<char>)
    ensures
        join(parts.push(s), sep) == (if parts.len() == 0 {
            s
        } else {
            join(parts, sep) + sep + s
        }),
{
    assert(parts.push(s).drop_last() =~= parts);
}

proof fn lemma_join_empty(parts: Seq<Seq<char>>, sep: Seq<char>)
    requires
        forall|i: int| 0 <= i < parts.len() ==> (#[trigger] parts[i]).len() > 0,
    ensures
        join(parts, sep).len() == 0 <==> parts.len() == 0,
    decreases parts.len(),
{
    if parts.len() > 1 {
        assert(parts.last().len() > 0);
    }
}

/// Parse a PRD markdown file and extract user stories.
///
/// Looks for sections in formats like:
/// - `### US-1: Title`
/// - `### User Story 1: Title`
/// - `## US-1 Title`
///
/// And extracts acceptance criteria from bullet points under "Acceptance:" subsections.
pub fn parse_prd(content: &str) -> (r: Vec<UserStory>)
    ensures
        views(r@) == stories_of(content@),
{
    let ls = lines_of(&chars_of(content));
    let n = ls.len();
    let mut stories: Vec<UserStory> = Vec::new();
    let mut current: Option<OpenStory> = None;
    let ghost lv = lines(content@);
    let ghost f = |s: Section| story_of(s.0, s.1);
    assert(lv.take(0) =~= Seq::<Seq<char>>::empty());
    for i in 0..n
        invariant
            n == ls@.len(),
            lv == views(ls@),
            f == (|s: Section| story_of(s.0, s.1)),
            ({
                let sections = sections_of(lv.take(i as int));
                match current {
                    Some(open) => sections.len() > 0 && open_matches(open, sections.last())
                        && views(stories@) == sections.drop_last().map_values(f),
                    None => sections.len() == 0 && stories@.len() == 0,
                }
            }),
    {
        broadcast use lemma_views_push;

        let ghost sections = sections_of(lv.take(i as int));
        let ghost next = sections_of(lv.take(i + 1));
        assert(lv.take(i + 1).drop_last() =~= lv.take(i as int));
        assert(lv[i as int] == ls@[i as int]@);
        let s = trimmed(&ls[i]);
        match read_header(&s) {
            Some(story) => {
                match current {
                    Some(open) => {
                        stories.push(close_story(open, Ghost(sections.last())));
                        assert(views(stories@) =~= sections.map_values(f));
                    },
                    None => {
                        assert(views(stories@) =~= sections.map_values(f));
                    },
                }
                assert(next.drop_last() =~= sections);
                current = Some(OpenStory { story, in_acceptance: false, text: String::new() });
                assert(open_matches(current->0, next.last()));
            },
            None => {
                match current {
                    Some(open) => {
                        let mut open = open;
                        take_line(&mut open, &s, Ghost(sections.last()));
                        assert(next.drop_last() =~= sections.drop_last());
                        current = Some(open);
                    },
                    None => {
                        current = None;
                    },
                }
            },
        }
    }
    assert(lv.take(n as int) =~= lv);
    let ghost sections = sections_of(lv);
    match current {
        Some(open) => {
            broadcast use lemma_views_push;

            stories.push(close_story(open, Ghost(sections.last())));
            assert(views(stories@) =~= sections.map_values(f));
        },
        None => {
            assert(views(stories@) =~= sections.map_values(f));
        },
    }
    stories
}

/// Convert user stories to tasks.
pub fn stories_to_tasks(stories: &[UserStory]) -> (r: Vec<Task>)
    ensures
        views(r@) == tasks_of(views(stories@)),
{
    let n = stories.len();
    let mut tasks: Vec<Task> = Vec::new();
    let ghost sv = views(stories@);
    for i in 0..n
        invariant
            n == stories@.len(),
            sv == views(stories@),
            views(tasks@) == tasks_of(sv).take(i as int),
    {
        broadcast use lemma_views_push;

        assert(sv[i as int] == stories@[i as int]@);
        let low = stories[i].id.as_str().to_lowercase();
        let id = string_of(&replaced(&chars_of(low.as_str()), ' ', &chars_of("-")));
        tasks.push(
            Task {
                id,
                title: stories[i].title.clone(),
                status: TaskStatus::Todo,
                acceptance: clone_strings(&stories[i].acceptance),
                validators: Vec::new(),
                notes: clone_opt_string(&stories[i].story),
            },
        );
        assert(tasks@.last()@ =~= task_of(sv[i as int]));
    }
    tasks
}

/// Parse the text of a PRD and return tasks.
pub fn parse_prd_tasks(content: &str) -> (r: Vec<Task>)
    ensures
        views(r@) == tasks_of(stories_of(content@)),
{
    stories_to_tasks(parse_prd(content).as_slice())
}

} // verus!
