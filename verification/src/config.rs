//! The configuration of a run.

use vstd::prelude::*;

use crate::number::{decimal, decimal_text};
use crate::path::{join_path, joined};
use crate::policy::{default_policy, PolicyConfig, PolicyView, ViolationAction};
use crate::search::join;
use crate::text::{chars_of, clone_opt_string, clone_strings, opt_view, owned, views};

verus! {

/// Name of the configuration file.
pub const CONFIG_FILE_NAME: &'static str = "ralpher.toml";

/// Default maximum iterations before pausing.
pub const DEFAULT_MAX_ITERATIONS: u32 = 100;

/// Git operation mode for checkpointing.
#[derive(Clone, Copy, Debug, PartialEq, Eq, Structural)]
pub enum GitMode {
    /// Create a dedicated branch for the run (safe default).
    Branch,
    /// Operate directly on the current branch (requires explicit opt-in).
    Trunk,
}

impl Default for GitMode {
    fn default() -> (r: Self)
        ensures
            r == GitMode::Branch,
    {
        GitMode::Branch
    }
}

/// The name of a git mode in the configuration file.
pub open spec fn mode_name(mode: GitMode) -> Seq<char> {
    match mode {
        GitMode::Branch => "branch"@,
        GitMode::Trunk => "trunk"@,
    }
}

impl GitMode {
    /// The name of the mode in the configuration file.
    pub fn name(&self) -> (r: &'static str)
        ensures
            r@ == mode_name(*self),
    {
        match self {
            GitMode::Branch => "branch",
            GitMode::Trunk => "trunk",
        }
    }
}

/// Agent runner configuration.
#[derive(Debug)]
pub struct AgentConfig {
    /// Runner type (currently only "command" supported).
    pub runner_type: String,
    /// Command and arguments to execute the agent.
    pub cmd: Vec<String>,
}

/// What an agent configuration says.
#[verifier::ext_equal]
pub struct AgentView {
    pub runner_type: Seq<char>,
    pub cmd: Seq<Seq<char>>,
}

impl View for AgentConfig {
    type V = AgentView;

    open spec fn view(&self) -> AgentView {
        AgentView { runner_type: self.runner_type@, cmd: views(self.cmd@) }
    }
}

impl Clone for AgentConfig {
    fn clone(&self) -> (r: Self)
        ensures
            r@ == self@,
    {
        AgentConfig { runner_type: self.runner_type.clone(), cmd: clone_strings(&self.cmd) }
    }
}

/// Settings of the Archon integration.
#[derive(Debug)]
pub struct ArchonConfig {
    /// Whether the integration is on.
    pub enabled: bool,
    /// The project in which tasks are kept.
    pub project_id: Option<String>,
    /// Whether the agent is told to look up context.
    pub use_rag: bool,
}

/// What the Archon settings say.
#[verifier::ext_equal]
pub struct ArchonView {
    pub enabled: bool,
    pub project_id: Option<Seq<char>>,
    pub use_rag: bool,
}

impl View for ArchonConfig {
    type V = ArchonView;

    open spec fn view(&self) -> ArchonView {
        ArchonView {
            enabled: self.enabled,
            project_id: opt_view(self.project_id),
            use_rag: self.use_rag,
        }
    }
}

/// The settings with the integration off.
pub open spec fn archon_off() -> ArchonView {
    ArchonView { enabled: false, project_id: None, use_rag: false }
}

impl Clone for ArchonConfig {
    fn clone(&self) -> (r: Self)
        ensures
            r@ == self@,
    {
        ArchonConfig {
            enabled: self.enabled,
            project_id: clone_opt_string(&self.project_id),
            use_rag: self.use_rag,
        }
    }
}

impl Default for ArchonConfig {
    fn default() -> (r: Self)
        ensures
            r@ == archon_off(),
    {
        ArchonConfig { enabled: false, project_id: None, use_rag: false }
    }
}

/// Top-level ralpher configuration.
#[derive(Debug)]
pub struct Config {
    /// Git mode for checkpointing.
    pub git_mode: GitMode,
    /// Agent runner configuration.
    pub agent: Option<AgentConfig>,
    /// Global validators to run after each agent execution.
    /// Each validator is a shell command string.
    pub validators: Vec<String>,
    /// Policy configuration for diff checking.
    pub policy: PolicyConfig,
    /// Maximum iterations before pausing (default: 100).
    pub max_iterations: u32,
    /// Settings of the Archon integration (default: off).
    pub archon: ArchonConfig,
}

/// What a configuration says.
#[verifier::ext_equal]
pub struct ConfigView {
    pub git_mode: GitMode,
    pub agent: Option<AgentView>,
    pub validators: Seq<Seq<char>>,
    pub policy: PolicyView,
    pub max_iterations: u32,
    pub archon: ArchonView,
}

impl View for Config {
    type V = ConfigView;

    open spec fn view(&self) -> ConfigView {
        ConfigView {
            git_mode: self.git_mode,
            agent: opt_view(self.agent),
            validators: views(self.validators@),
            policy: self.policy@,
            max_iterations: self.max_iterations,
            archon: self.archon@,
        }
    }
}

impl Clone for Config {
    fn clone(&self) -> (r: Self)
        ensures
            r@ == self@,
    {
        let agent = match &self.agent {
            Some(a) => Some(a.clone()),
            None => None,
        };
        Config {
            git_mode: self.git_mode,
            agent,
            validators: clone_strings(&self.validators),
            policy: self.policy.clone(),
            max_iterations: self.max_iterations,
            archon: self.archon.clone(),
        }
    }
}

/// The configuration with all defaults.
pub open spec fn default_config() -> ConfigView {
    ConfigView {
        git_mode: GitMode::Branch,
        agent: None,
        validators: Seq::empty(),
        policy: default_policy(),
        max_iterations: DEFAULT_MAX_ITERATIONS,
        archon: archon_off(),
    }
}

impl Default for Config {
    fn default() -> (r: Self)
        ensures
            r@ == default_config(),
    {
        Config::new()
    }
}

// ------------------------------------------------------------ splitting commands

/// The error of `shell_words::split`, which carries nothing.
#[verifier::external_type_specification]
#[verifier::external_body]
pub struct ExParseError(shell_words::ParseError);

/// The words into which `shell_words::split` splits a command line, or `None`
/// where it reports an error.
pub uninterp spec fn shell_split(s: Seq<char>) -> Option<Seq<Seq<char>>>;

/// Whether `c` separates the words of a command line.
pub open spec fn is_blank(c: char) -> bool {
    c == ' ' || c == '\t' || c == '\n'
}

/// The words of `s` that a blank ends, and the word after its last blank.
pub open spec fn blank_words(s: Seq<char>) -> (Seq<Seq<char>>, Seq<char>)
    decreases s.len(),
{
    if s.len() == 0 {
        (Seq::empty(), Seq::empty())
    } else {
        let (words, word) = blank_words(s.drop_last());
        if !is_blank(s.last()) {
            (words, word.push(s.last()))
        } else if word.len() > 0 {
            (words.push(word), Seq::empty())
        } else {
            (words, word)
        }
    }
}

/// The runs of characters of `s` between blanks.
pub open spec fn plain_words(s: Seq<char>) -> Seq<Seq<char>> {
    let (words, word) = blank_words(s);
    if word.len() > 0 {
        words.push(word)
    } else {
        words
    }
}

/// Whether no character of `s` quotes, escapes or begins a comment.
pub open spec fn is_plain(s: Seq<char>) -> bool {
    forall|i: int|
        0 <= i < s.len() ==> #[trigger] s[i] != '\'' && s[i] != '"' && s[i] != '\\' && s[i] != '#'
}

/// Whether no character of `s` quotes.
pub open spec fn has_no_quotes(s: Seq<char>) -> bool {
    forall|i: int| 0 <= i < s.len() ==> #[trigger] s[i] != '\'' && s[i] != '"'
}

/// The words of a split, where it succeeded.
pub open spec fn words_in(r: Result<Vec<String>, shell_words::ParseError>) -> Option<
    Seq<Seq<char>>,
> {
    match r {
        Ok(words) => Some(views(words@)),
        Err(_) => None,
    }
}

/// Calls `shell_words::split`, which splits a command line into words as a Unix
/// shell does. Its result depends on the text alone. A text without quotes,
/// backslashes and comment signs is split at its blanks; one without quotes is
/// no error. How quotes, backslashes and comments are read is not stated.
#[verifier::external_body]
fn split_command(line: &str) -> (r: Result<Vec<String>, shell_words::ParseError>)
    ensures
        words_in(r) == shell_split(line@),
        is_plain(line@) ==> words_in(r) == Some(plain_words(line@)),
        has_no_quotes(line@) ==> words_in(r) is Some,
{
    shell_words::split(line)
}

/// The command of an agent: the words of the line, or the line itself where it
/// cannot be split.
pub open spec fn setup_command(line: Seq<char>, split: Option<Seq<Seq<char>>>) -> Seq<Seq<char>> {
    match split {
        Some(words) => words,
        None => seq![line],
    }
}

/// The configuration that the setup wizard makes.
pub open spec fn setup_config(
    line: Seq<char>,
    split: Option<Seq<Seq<char>>>,
    git_mode: GitMode,
) -> ConfigView {
    ConfigView {
        git_mode,
        agent: Some(
            AgentView { runner_type: "command"@, cmd: setup_command(line, split) },
        ),
        ..default_config()
    }
}

// -------------------------------------------------------------- the file's text

/// Whether a character cannot stand in a quoted text as it is: the quote, the
/// backslash and the control characters.
pub open spec fn needs_escape(c: char) -> bool {
    c == '"' || c == '\\' || is_control(c)
}

pub open spec fn is_control(c: char) -> bool {
    (c as u32) < 0x20 || c as u32 == 0x7F
}

/// A hexadecimal digit.
pub open spec fn hex_digit(n: u32) -> char {
    match n {
        0 => '0',
        1 => '1',
        2 => '2',
        3 => '3',
        4 => '4',
        5 => '5',
        6 => '6',
        7 => '7',
        8 => '8',
        9 => '9',
        10 => 'a',
        11 => 'b',
        12 => 'c',
        13 => 'd',
        14 => 'e',
        _ => 'f',
    }
}

/// The value of a hexadecimal digit.
pub open spec fn hex_value(c: char) -> Option<int> {
    match c {
        '0' => Some(0),
        '1' => Some(1),
        '2' => Some(2),
        '3' => Some(3),
        '4' => Some(4),
        '5' => Some(5),
        '6' => Some(6),
        '7' => Some(7),
        '8' => Some(8),
        '9' => Some(9),
        'a' => Some(10),
        'b' => Some(11),
        'c' => Some(12),
        'd' => Some(13),
        'e' => Some(14),
        'f' => Some(15),
        _ => None,
    }
}

/// A character as it stands in a quoted text.
pub open spec fn escaped_char(c: char) -> Seq<char> {
    if c == '"' || c == '\\' {
        seq!['\\', c]
    } else if is_control(c) {
        seq!['\\', 'u', '0', '0', hex_digit((c as u32 / 16) as u32), hex_digit(
            (c as u32 % 16) as u32,
        )]
    } else {
        seq![c]
    }
}

/// A text as it stands between quotes.
pub open spec fn escaped(s: Seq<char>) -> Seq<char>
    decreases s.len(),
{
    if s.len() == 0 {
        Seq::empty()
    } else {
        escaped_char(s[0]) + escaped(s.skip(1))
    }
}

/// `s` in double quotes, with what cannot stand there escaped.
pub open spec fn quoted(s: Seq<char>) -> Seq<char> {
    "\""@ + escaped(s) + "\""@
}

/// Whether a character has the given code.
pub open spec fn has_code(c: char, code: int) -> bool {
    c as u32 == code
}

/// The character with the given code.
pub open spec fn char_of(code: int) -> char {
    choose|c: char| has_code(c, code)
}

/// The character that an escape at the beginning of `s` stands for, and how many
/// characters the escape takes.
pub open spec fn read_escape(s: Seq<char>) -> Option<(char, int)> {
    if s.len() >= 2 && (s[1] == '"' || s[1] == '\\') {
        Some((s[1], 2))
    } else if s.len() >= 6 && s[1] == 'u' && s[2] == '0' && s[3] == '0' {
        match (hex_value(s[4]), hex_value(s[5])) {
            (Some(high), Some(low)) => Some((char_of(16 * high + low), 6)),
            _ => None,
        }
    } else {
        None
    }
}

/// The text that stands between quotes, as TOML reads it: a backslash begins an
/// escape, and neither a quote nor a control character stands there as it is.
pub open spec fn unescaped(s: Seq<char>) -> Option<Seq<char>>
    decreases s.len(),
{
    if s.len() == 0 {
        Some(Seq::empty())
    } else if s[0] == '\\' {
        match read_escape(s) {
            Some((c, n)) if 0 < n <= s.len() => match unescaped(s.skip(n)) {
                Some(rest) => Some(seq![c] + rest),
                None => None,
            },
            _ => None,
        }
    } else if needs_escape(s[0]) {
        None
    } else {
        match unescaped(s.skip(1)) {
            Some(rest) => Some(seq![s[0]] + rest),
            None => None,
        }
    }
}

/// The text that a quoted text stands for.
pub open spec fn unquoted(s: Seq<char>) -> Option<Seq<char>> {
    if s.len() >= 2 && s[0] == '"' && s.last() == '"' {
        unescaped(s.subrange(1, s.len() - 1))
    } else {
        None
    }
}

/// A quoted text reads back as the text.
pub proof fn law_quoted_reads_back(s: Seq<char>)
    ensures
        unquoted(quoted(s)) == Some(s),
{
    reveal_strlit("\"");
    lemma_escaped_reads_back(s);
    assert(quoted(s).subrange(1, quoted(s).len() - 1) =~= escaped(s));
}

proof fn lemma_code_unique(a: char, b: char, code: int)
    requires
        has_code(a, code),
        has_code(b, code),
    ensures
        a == b,
{
}

proof fn lemma_escaped_reads_back(s: Seq<char>)
    ensures
        unescaped(escaped(s)) == Some(s),
    decreases s.len(),
{
    if s.len() == 0 {
        assert(s =~= Seq::empty());
    } else {
        let c = s[0];
        let e = escaped_char(c);
        let t = escaped(s);
        lemma_escaped_reads_back(s.skip(1));
        assert(t.skip(e.len() as int) =~= escaped(s.skip(1)));
        assert(seq![c] + s.skip(1) =~= s);
        if c == '"' || c == '\\' {
            assert(read_escape(t) == Some((c, 2int)));
        } else if is_control(c) {
            let u = c as u32;
            assert(hex_value(hex_digit((u / 16) as u32)) == Some(u as int / 16));
            assert(hex_value(hex_digit((u % 16) as u32)) == Some(u as int % 16));
            assert(16 * (u / 16) + u % 16 == u);
            assert(has_code(c, u as int));
            lemma_code_unique(c, char_of(u as int), u as int);
            assert(read_escape(t) == Some((c, 6int)));
        }
    }
}

pub open spec fn validators_text(vs: Seq<Seq<char>>) -> Seq<char>
    decreases vs.len(),
{
    if vs.len() == 0 {
        "validators = [\n"@
    } else {
        validators_text(vs.drop_last()) + "    "@ + quoted(vs.last()) + ",\n"@
    }
}

/// The agent's section.
pub open spec fn agent_text(agent: Option<AgentView>) -> Seq<char> {
    match agent {
        Some(a) => "\n[agent]\n"@ + "type = "@ + quoted(a.runner_type) + "\ncmd = ["@ + join(
            a.cmd.map_values(|s: Seq<char>| quoted(s)),
            ", "@,
        ) + "]\n"@,
        None => Seq::empty(),
    }
}

/// A line with a list of paths, or nothing where there are none.
pub open spec fn paths_text(key: Seq<char>, paths: Seq<Seq<char>>) -> Seq<char> {
    if paths.len() == 0 {
        Seq::empty()
    } else {
        key + " = ["@ + join(paths.map_values(|s: Seq<char>| quoted(s)), ", "@) + "]\n"@
    }
}

/// The name of an action in the configuration file.
pub open spec fn action_name(action: ViolationAction) -> Seq<char> {
    match action {
        ViolationAction::Abort => "abort"@,
        ViolationAction::Reset => "reset"@,
        ViolationAction::Keep => "keep"@,
    }
}

/// The policy's section, which holds what differs from the default.
pub open spec fn policy_text(p: PolicyView) -> Seq<char> {
    if p.deny_deletes && p.deny_renames && p.allow_paths.len() == 0 && p.deny_paths.len() == 0
        && p.on_violation == ViolationAction::Abort {
        Seq::empty()
    } else {
        "\n[policy]\n"@ + (if p.deny_deletes {
            Seq::empty()
        } else {
            "deny_deletes = false\n"@
        }) + (if p.deny_renames {
            Seq::empty()
        } else {
            "deny_renames = false\n"@
        }) + paths_text("allow_paths"@, p.allow_paths) + paths_text("deny_paths"@, p.deny_paths) + (
        if p.on_violation == ViolationAction::Abort {
            Seq::empty()
        } else {
            "on_violation = "@ + quoted(action_name(p.on_violation)) + "\n"@
        })
    }
}

/// The section of the Archon integration, which holds what differs from its
/// being off.
pub open spec fn archon_text(a: ArchonView) -> Seq<char> {
    if !a.enabled && a.project_id is None && !a.use_rag {
        Seq::empty()
    } else {
        "\n[archon]\n"@ + (if a.enabled {
            "enabled = true\n"@
        } else {
            Seq::empty()
        }) + (match a.project_id {
            Some(id) => "project_id = "@ + quoted(id) + "\n"@,
            None => Seq::empty(),
        }) + (if a.use_rag {
            "use_rag = true\n"@
        } else {
            Seq::empty()
        })
    }
}

/// The text of the configuration file.
pub open spec fn config_text(c: ConfigView) -> Seq<char> {
    "git_mode = "@ + quoted(mode_name(c.git_mode)) + "\n"@ + (if c.max_iterations
        == DEFAULT_MAX_ITERATIONS {
        Seq::empty()
    } else {
        "max_iterations = "@ + decimal(c.max_iterations as nat) + "\n"@
    }) + (if c.validators.len() == 0 {
        Seq::empty()
    } else {
        validators_text(c.validators) + "]\n"@
    }) + agent_text(c.agent) + policy_text(c.policy) + archon_text(c.archon)
}

/// The policy is written to the file exactly where it differs from the default.
pub proof fn law_default_policy_is_left_out(p: PolicyView)
    ensures
        policy_text(p).len() == 0 <==> p == default_policy(),
{
    reveal_strlit("\n[policy]\n");
    if policy_text(p).len() == 0 {
        assert(p =~= default_policy());
    }
}

/// The Archon settings are written to the file exactly where they differ from
/// the integration's being off.
pub proof fn law_default_archon_is_left_out(a: ArchonView)
    ensures
        archon_text(a).len() == 0 <==> a == archon_off(),
{
    reveal_strlit("\n[archon]\n");
    if archon_text(a).len() == 0 {
        assert(a =~= archon_off());
    }
}

/// Whether a text holds no blank.
pub open spec fn has_no_blank(s: Seq<char>) -> bool {
    forall|k: int| 0 <= k < s.len() ==> !is_blank(#[trigger] s[k])
}

/// No word of a plain command line is empty or holds a blank.
pub proof fn law_plain_words(line: Seq<char>)
    ensures
        forall|i: int|
            0 <= i < plain_words(line).len() ==> (#[trigger] plain_words(line)[i]).len() > 0
                && has_no_blank(plain_words(line)[i]),
{
    lemma_blank_words(line);
}

proof fn lemma_blank_words(s: Seq<char>)
    ensures
        forall|i: int|
            0 <= i < blank_words(s).0.len() ==> (#[trigger] blank_words(s).0[i]).len() > 0
                && has_no_blank(blank_words(s).0[i]),
        has_no_blank(blank_words(s).1),
    decreases s.len(),
{
    if s.len() > 0 {
        lemma_blank_words(s.drop_last());
        let (words, word) = blank_words(s.drop_last());
        if is_blank(s.last()) && word.len() > 0 {
            assert(blank_words(s).0 == words.push(word));
            assert forall|i: int| 0 <= i < blank_words(s).0.len() implies (#[trigger] blank_words(
                s,
            ).0[i]).len() > 0 && has_no_blank(blank_words(s).0[i]) by {
                if i < words.len() {
                    assert(words[i] == blank_words(s.drop_last()).0[i]);
                }
            }
        }
    }
}

fn hex_char(n: u32) -> (r: char)
    ensures
        r == hex_digit(n),
{
    match n {
        0 => '0',
        1 => '1',
        2 => '2',
        3 => '3',
        4 => '4',
        5 => '5',
        6 => '6',
        7 => '7',
        8 => '8',
        9 => '9',
        10 => 'a',
        11 => 'b',
        12 => 'c',
        13 => 'd',
        14 => 'e',
        _ => 'f',
    }
}

fn push_escaped(out: &mut String, c: char)
    ensures
        final(out)@ == old(out)@ + escaped_char(c),
{
    let u: u32 = c as u32;
    if c == '"' || c == '\\' {
        out.push('\\');
        out.push(c);
    } else if u < 0x20 || u == 0x7F {
        out.push('\\');
        out.push('u');
        out.push('0');
        out.push('0');
        out.push(hex_char(u / 16));
        out.push(hex_char(u % 16));
    } else {
        out.push(c);
    }
    assert(out@ =~= old(out)@ + escaped_char(c));
}

fn quote(s: &str) -> (r: String)
    ensures
        r@ == quoted(s@),
{
    let v = chars_of(s);
    let n = v.len();
    let mut out = owned("\"");
    assert(v@.skip(0) =~= v@);
    for i in 0..n
        invariant
            n == v@.len(),
            out@ + escaped(v@.skip(i as int)) == "\""@ + escaped(v@),
    {
        let ghost before = out@;
        assert(v@.skip(i as int).skip(1) =~= v@.skip(i + 1));
        push_escaped(&mut out, v[i]);
        assert(out@ + escaped(v@.skip(i + 1)) =~= before + escaped(v@.skip(i as int)));
    }
    assert(out@ + escaped(v@.skip(n as int)) =~= out@);
    out.concat("\"")
}

fn join_quoted(parts: &Vec<String>) -> (r: String)
    ensures
        r@ == join(views(parts@).map_values(|s: Seq<char>| quoted(s)), ", "@),
{
    let mut out = String::new();
    let n = parts.len();
    let ghost pv = views(parts@);
    let ghost qs = pv.map_values(|s: Seq<char>| quoted(s));
    assert(qs.take(0) =~= Seq::<Seq<char>>::empty());
    assert(out@ =~= Seq::<char>::empty());
    for i in 0..n
        invariant
            n == parts@.len(),
            pv == views(parts@),
            qs == pv.map_values(|s: Seq<char>| quoted(s)),
            out@ == join(qs.take(i as int), ", "@),
    {
        assert(pv[i as int] == parts@[i as int]@);
        assert(qs.take(i + 1).drop_last() =~= qs.take(i as int));
        assert(qs.take(i + 1).last() == quoted(pv[i as int]));
        let q = quote(parts[i].as_str());
        if i > 0 {
            out.append(", ");
        }
        out.append(q.as_str());
        if i == 0 {
            assert(out@ =~= q@);
        }
    }
    assert(qs.take(n as int) =~= qs);
    out
}

fn validators_section(vs: &Vec<String>) -> (r: String)
    ensures
        r@ == (if vs@.len() == 0 {
            Seq::empty()
        } else {
            validators_text(views(vs@)) + "]\n"@
        }),
{
    let n = vs.len();
    if n == 0 {
        return String::new();
    }
    let mut out = owned("validators = [\n");
    let ghost vv = views(vs@);
    assert(vv.take(0).len() == 0);
    for i in 0..n
        invariant
            n == vs@.len(),
            vv == views(vs@),
            out@ == validators_text(vv.take(i as int)),
    {
        assert(vv.take(i + 1).drop_last() =~= vv.take(i as int));
        assert(vv[i as int] == vs@[i as int]@);
        out.append("    ");
        let q = quote(vs[i].as_str());
        out.append(q.as_str());
        out.append(",\n");
    }
    assert(vv.take(n as int) =~= vv);
    out.concat("]\n")
}

fn agent_section(agent: &Option<AgentConfig>) -> (r: String)
    ensures
        r@ == agent_text(opt_view(*agent)),
{
    match agent {
        Some(a) => owned("\n[agent]\n").concat("type = ").concat(
            quote(a.runner_type.as_str()).as_str(),
        ).concat("\ncmd = [").concat(join_quoted(&a.cmd).as_str()).concat("]\n"),
        None => String::new(),
    }
}

fn paths_line(key: &str, paths: &Vec<String>) -> (r: String)
    ensures
        r@ == paths_text(key@, views(paths@)),
{
    if paths.len() == 0 {
        String::new()
    } else {
        owned(key).concat(" = [").concat(join_quoted(paths).as_str()).concat("]\n")
    }
}

fn policy_section(p: &PolicyConfig) -> (r: String)
    ensures
        r@ == policy_text(p@),
{
    let abort = p.on_violation == ViolationAction::Abort;
    if p.deny_deletes && p.deny_renames && p.allow_paths.len() == 0 && p.deny_paths.len() == 0
        && abort {
        return String::new();
    }
    let deletes = if p.deny_deletes {
        String::new()
    } else {
        owned("deny_deletes = false\n")
    };
    let renames = if p.deny_renames {
        String::new()
    } else {
        owned("deny_renames = false\n")
    };
    let action = match p.on_violation {
        ViolationAction::Abort => String::new(),
        ViolationAction::Reset => owned("on_violation = ").concat(quote("reset").as_str()).concat(
            "\n",
        ),
        ViolationAction::Keep => owned("on_violation = ").concat(quote("keep").as_str()).concat(
            "\n",
        ),
    };
    owned("\n[policy]\n").concat(deletes.as_str()).concat(renames.as_str()).concat(
        paths_line("allow_paths", &p.allow_paths).as_str(),
    ).concat(paths_line("deny_paths", &p.deny_paths).as_str()).concat(action.as_str())
}

fn archon_section(a: &ArchonConfig) -> (r: String)
    ensures
        r@ == archon_text(a@),
{
    if !a.enabled && a.project_id.is_none() && !a.use_rag {
        return String::new();
    }
    let enabled = if a.enabled {
        owned("enabled = true\n")
    } else {
        String::new()
    };
    let project = match &a.project_id {
        Some(id) => owned("project_id = ").concat(quote(id.as_str()).as_str()).concat("\n"),
        None => String::new(),
    };
    let rag = if a.use_rag {
        owned("use_rag = true\n")
    } else {
        String::new()
    };
    owned("\n[archon]\n").concat(enabled.as_str()).concat(project.as_str()).concat(rag.as_str())
}

/// A file to be written.
#[derive(Debug)]
pub struct FileText {
    pub path: String,
    pub content: String,
}

/// The message for a directory without a configuration file.
pub open spec fn missing_config(dir: Seq<char>) -> Seq<char> {
    "No ralpher.toml found in "@ + dir
        + ". Run `ralpher` from a directory with a ralpher.toml config file."@
}

/// The path of the configuration file in the given directory.
pub fn config_path(dir: &str) -> (r: String)
    ensures
        r@ == join_path(dir@, CONFIG_FILE_NAME@),
{
    joined(dir, CONFIG_FILE_NAME)
}

/// The message for a directory without a configuration file.
pub fn missing_config_message(dir: &str) -> (r: String)
    ensures
        r@ == missing_config(dir@),
{
    owned("No ralpher.toml found in ").concat(dir).concat(
        ". Run `ralpher` from a directory with a ralpher.toml config file.",
    )
}

impl Config {
    /// Create a new config with all defaults.
    pub fn new() -> (r: Self)
        ensures
            r@ == default_config(),
    {
        Config {
            git_mode: GitMode::Branch,
            agent: None,
            validators: Vec::new(),
            policy: PolicyConfig::new(),
            max_iterations: DEFAULT_MAX_ITERATIONS,
            archon: ArchonConfig::default(),
        }
    }

    /// The configuration file as it is saved to the given directory.
    pub fn save(&self, dir: &str) -> (r: FileText)
        ensures
            r.path@ == join_path(dir@, CONFIG_FILE_NAME@),
            r.content@ == config_text(self@),
    {
        let max_iterations = if self.max_iterations == DEFAULT_MAX_ITERATIONS {
            String::new()
        } else {
            owned("max_iterations = ").concat(
                decimal_text(self.max_iterations as u64).as_str(),
            ).concat("\n")
        };
        let content = owned("git_mode = ").concat(quote(self.git_mode.name()).as_str()).concat(
            "\n",
        ).concat(max_iterations.as_str()).concat(
            validators_section(&self.validators).as_str(),
        ).concat(agent_section(&self.agent).as_str()).concat(
            policy_section(&self.policy).as_str(),
        ).concat(archon_section(&self.archon).as_str());
        FileText { path: config_path(dir), content }
    }

    /// Create a config from setup wizard input.
    pub fn from_setup(agent_cmd: &str, git_mode: GitMode) -> (r: Self)
        ensures
            r@ == setup_config(agent_cmd@, shell_split(agent_cmd@), git_mode),
            is_plain(agent_cmd@) ==> r@ == setup_config(
                agent_cmd@,
                Some(plain_words(agent_cmd@)),
                git_mode,
            ),
    {
        let words = match split_command(agent_cmd) {
            Ok(words) => Some(words),
            Err(_) => None,
        };
        Config::from_words(agent_cmd, words, git_mode)
    }

    /// Create a config from setup wizard input whose words are known, or known
    /// not to be separable.
    pub fn from_words(agent_cmd: &str, words: Option<Vec<String>>, git_mode: GitMode) -> (r: Self)
        ensures
            r@ == setup_config(
                agent_cmd@,
                match words {
                    Some(v) => Some(views(v@)),
                    None => None,
                },
                git_mode,
            ),
    {
        let cmd = match words {
            Some(v) => v,
            None => {
                let single = vec![owned(agent_cmd)];
                assert(views(single@) =~= seq![agent_cmd@]);
                single
            },
        };
        Config {
            git_mode,
            agent: Some(AgentConfig { runner_type: owned("command"), cmd }),
            validators: Vec::new(),
            policy: PolicyConfig::new(),
            max_iterations: DEFAULT_MAX_ITERATIONS,
            archon: ArchonConfig::default(),
        }
    }
}

// ---------------------------------------------------- what the file tells

/// Whether `part` stands in `text` behind `front`.
pub open spec fn stands_behind(text: Seq<char>, front: Seq<char>, part: Seq<char>) -> bool {
    text.len() >= front.len() + part.len() && text.take(front.len() as int) == front
        && text.subrange(front.len() as int, (front.len() + part.len()) as int) == part
}

/// The file begins with the git mode, then the limit on iterations where it is
/// not the default.
pub proof fn law_file_begins_with_mode(c: ConfigView)
    ensures
        ({
            let mode = if c.git_mode == GitMode::Branch {
                "git_mode = "@ + quoted("branch"@) + "\n"@
            } else {
                "git_mode = "@ + quoted("trunk"@) + "\n"@
            };
            &&& stands_behind(config_text(c), Seq::empty(), mode)
            &&& c.max_iterations != 100 ==> stands_behind(
                config_text(c),
                mode,
                "max_iterations = "@ + decimal(c.max_iterations as nat) + "\n"@,
            )
        }),
{
    let mode = "git_mode = "@ + quoted(mode_name(c.git_mode)) + "\n"@;
    let limit = if c.max_iterations == DEFAULT_MAX_ITERATIONS {
        Seq::empty()
    } else {
        "max_iterations = "@ + decimal(c.max_iterations as nat) + "\n"@
    };
    let validators = if c.validators.len() == 0 {
        Seq::empty()
    } else {
        validators_text(c.validators) + "]\n"@
    };
    lemma_first_parts(
        mode,
        limit,
        validators,
        agent_text(c.agent),
        policy_text(c.policy),
        archon_text(c.archon),
    );
}

proof fn lemma_first_parts(
    a: Seq<char>,
    b: Seq<char>,
    c: Seq<char>,
    d: Seq<char>,
    e: Seq<char>,
    f: Seq<char>,
)
    ensures
        stands_behind(a + b + c + d + e + f, Seq::empty(), a),
        stands_behind(a + b + c + d + e + f, a, b),
{
    let text = a + b + c + d + e + f;
    assert(text.take(0) =~= Seq::<char>::empty());
    assert(text.subrange(0, a.len() as int) =~= a);
    assert(text.take(a.len() as int) =~= a);
    assert(text.subrange(a.len() as int, (a.len() + b.len()) as int) =~= b);
}

proof fn lemma_plain_quoted(s: Seq<char>)
    requires
        forall|i: int| 0 <= i < s.len() ==> !needs_escape(#[trigger] s[i]),
    ensures
        escaped(s) == s,
        quoted(s) == "\""@ + s + "\""@,
    decreases s.len(),
{
    if s.len() > 0 {
        assert forall|i: int| 0 <= i < s.skip(1).len() implies !needs_escape(
            #[trigger] s.skip(1)[i],
        ) by {
            assert(s.skip(1)[i] == s[i + 1]);
        }
        lemma_plain_quoted(s.skip(1));
        assert(!needs_escape(s[0]));
        assert(seq![s[0]] + s.skip(1) =~= s);
    } else {
        assert(escaped(s) =~= s);
    }
}

/// A text without quotes, backslashes and control characters stands in the file
/// as it is.
pub proof fn law_plain_text_is_not_escaped(s: Seq<char>)
    requires
        forall|i: int|
            0 <= i < s.len() ==> #[trigger] s[i] != '"' && s[i] != '\\' && s[i] as u32 >= 0x20
                && s[i] as u32 != 0x7F,
    ensures
        quoted(s) == "\""@ + s + "\""@,
{
    assert forall|i: int| 0 <= i < s.len() implies !needs_escape(#[trigger] s[i]) by {}
    lemma_plain_quoted(s);
}

/// Each validator stands on a line of its own, in quotes and in order.
pub proof fn law_validators_are_listed(vs: Seq<Seq<char>>, v: Seq<char>)
    ensures
        validators_text(vs.push(v)) == validators_text(vs) + "    "@ + quoted(v) + ",\n"@,
        validators_text(Seq::empty()) == "validators = [\n"@,
{
    assert(vs.push(v).drop_last() =~= vs);
}

/// The sections of the file are those of the validators, the agent, the policy
/// and the integration, in this order, and end it.
pub proof fn law_sections_end_the_file(c: ConfigView)
    ensures
        ({
            let sections = (if c.validators.len() == 0 {
                Seq::empty()
            } else {
                validators_text(c.validators) + "]\n"@
            }) + agent_text(c.agent) + policy_text(c.policy) + archon_text(c.archon);
            let text = config_text(c);
            text.len() >= sections.len() && text.skip(text.len() - sections.len()) == sections
        }),
{
    let sections = (if c.validators.len() == 0 {
        Seq::empty()
    } else {
        validators_text(c.validators) + "]\n"@
    }) + agent_text(c.agent) + policy_text(c.policy) + archon_text(c.archon);
    let text = config_text(c);
    assert(text.skip(text.len() - sections.len()) =~= sections);
}

/// The agent's section tells the type and the words of the command, each in
/// quotes and in order.
pub proof fn law_agent_is_told(a: AgentView)
    ensures
        agent_text(None).len() == 0,
        agent_text(Some(a)) == "\n[agent]\n"@ + "type = "@ + quoted(a.runner_type) + "\ncmd = ["@
            + join(Seq::new(a.cmd.len(), |i: int| quoted(a.cmd[i])), ", "@) + "]\n"@,
{
    assert(a.cmd.map_values(|s: Seq<char>| quoted(s)) =~= Seq::new(
        a.cmd.len(),
        |i: int| quoted(a.cmd[i]),
    ));
}

/// Whether a text holds another.
pub open spec fn tells(text: Seq<char>, part: Seq<char>) -> bool {
    exists|i: int|
        0 <= i && i + part.len() <= text.len() && #[trigger] text.subrange(i, i + part.len()) == part
}

/// What differs from the default policy is told, each setting on a line.
pub proof fn law_policy_is_told(p: PolicyView)
    ensures
        !p.deny_deletes ==> tells(policy_text(p), "deny_deletes = false\n"@),
        !p.deny_renames ==> tells(policy_text(p), "deny_renames = false\n"@),
        p.allow_paths.len() > 0 ==> tells(
            policy_text(p),
            "allow_paths"@ + " = ["@ + join(
                Seq::new(p.allow_paths.len(), |i: int| quoted(p.allow_paths[i])),
                ", "@,
            ) + "]\n"@,
        ),
        p.deny_paths.len() > 0 ==> tells(
            policy_text(p),
            "deny_paths"@ + " = ["@ + join(
                Seq::new(p.deny_paths.len(), |i: int| quoted(p.deny_paths[i])),
                ", "@,
            ) + "]\n"@,
        ),
        p.on_violation == ViolationAction::Reset ==> tells(
            policy_text(p),
            "on_violation = "@ + quoted("reset"@) + "\n"@,
        ),
        p.on_violation == ViolationAction::Keep ==> tells(
            policy_text(p),
            "on_violation = "@ + quoted("keep"@) + "\n"@,
        ),
{
    let text = policy_text(p);
    let head = "\n[policy]\n"@;
    let deletes = if p.deny_deletes {
        Seq::empty()
    } else {
        "deny_deletes = false\n"@
    };
    let renames = if p.deny_renames {
        Seq::empty()
    } else {
        "deny_renames = false\n"@
    };
    let allow = paths_text("allow_paths"@, p.allow_paths);
    let deny = paths_text("deny_paths"@, p.deny_paths);
    let action = if p.on_violation == ViolationAction::Abort {
        Seq::empty()
    } else {
        "on_violation = "@ + quoted(action_name(p.on_violation)) + "\n"@
    };
    assert(p.allow_paths.map_values(|s: Seq<char>| quoted(s)) =~= Seq::new(
        p.allow_paths.len(),
        |i: int| quoted(p.allow_paths[i]),
    ));
    assert(p.deny_paths.map_values(|s: Seq<char>| quoted(s)) =~= Seq::new(
        p.deny_paths.len(),
        |i: int| quoted(p.deny_paths[i]),
    ));
    if !p.deny_deletes || !p.deny_renames || p.allow_paths.len() > 0 || p.deny_paths.len() > 0
        || p.on_violation != ViolationAction::Abort {
        assert(text == head + deletes + renames + allow + deny + action);
        let a = head.len() as int;
        let b = a + deletes.len();
        let c = b + renames.len();
        let d = c + allow.len();
        let e = d + deny.len();
        assert(text.subrange(a, a + deletes.len()) =~= deletes);
        assert(text.subrange(b, b + renames.len()) =~= renames);
        assert(text.subrange(c, c + allow.len()) =~= allow);
        assert(text.subrange(d, d + deny.len()) =~= deny);
        assert(text.subrange(e, e + action.len()) =~= action);
    }
}

/// What differs from the integration's being off is told.
pub proof fn law_archon_is_told(a: ArchonView)
    ensures
        a.enabled ==> tells(archon_text(a), "enabled = true\n"@),
        a.use_rag ==> tells(archon_text(a), "use_rag = true\n"@),
        a.project_id matches Some(id) ==> tells(
            archon_text(a),
            "project_id = "@ + quoted(id) + "\n"@,
        ),
{
    let text = archon_text(a);
    let head = "\n[archon]\n"@;
    let enabled = if a.enabled {
        "enabled = true\n"@
    } else {
        Seq::empty()
    };
    let project = if a.project_id is Some {
        "project_id = "@ + quoted(a.project_id->0) + "\n"@
    } else {
        Seq::empty()
    };
    let rag = if a.use_rag {
        "use_rag = true\n"@
    } else {
        Seq::empty()
    };
    if a.enabled || a.use_rag || a.project_id is Some {
        assert(text == head + enabled + project + rag);
        let i = head.len() as int;
        let j = i + enabled.len();
        let k = j + project.len();
        assert(text.subrange(i, i + enabled.len()) =~= enabled);
        assert(text.subrange(j, j + project.len()) =~= project);
        assert(text.subrange(k, k + rag.len()) =~= rag);
    }
}

/// A plain command line is its words: each word ends at a blank, and blanks
/// alone make none.
pub proof fn law_words_end_at_blanks(s: Seq<char>, word: Seq<char>)
    requires
        has_no_blank(word),
        word.len() > 0,
        s.len() == 0 || is_blank(s.last()),
    ensures
        plain_words(s + word) == plain_words(s).push(word),
        plain_words(s.push(' ')) == plain_words(s),
        plain_words((s + word).push(' ')) == plain_words(s + word),
        plain_words(Seq::empty()).len() == 0,
{
    lemma_word_at_end(s, word);
    assert(s.push(' ').drop_last() =~= s);
    assert((s + word).push(' ').drop_last() =~= s + word);
    if s.len() > 0 {
        assert(blank_words(s).1.len() == 0);
    }
}

proof fn lemma_word_at_end(s: Seq<char>, word: Seq<char>)
    requires
        has_no_blank(word),
        s.len() == 0 || is_blank(s.last()),
    ensures
        blank_words(s + word).0 == blank_words(s).0,
        blank_words(s + word).1 == word,
        blank_words(s).1.len() == 0,
    decreases word.len(),
{
    if word.len() == 0 {
        assert(s + word =~= s);
        assert(blank_words(s).1 =~= word);
    } else {
        let front = word.drop_last();
        assert forall|k: int| 0 <= k < front.len() implies !is_blank(#[trigger] front[k]) by {
            assert(front[k] == word[k]);
        }
        lemma_word_at_end(s, front);
        assert((s + word).drop_last() =~= s + front);
        assert((s + word).last() == word[word.len() - 1]);
        assert(front.push(word.last()) =~= word);
    }
}

/// The defaults: branch mode, no agent, no validators, the default policy, a
/// hundred iterations and the integration off.
pub proof fn law_defaults()
    ensures
        default_config().git_mode == GitMode::Branch,
        default_config().agent is None,
        default_config().validators.len() == 0,
        default_config().policy == default_policy(),
        default_config().max_iterations == 100,
        !default_config().archon.enabled,
        default_config().archon.project_id is None,
        !default_config().archon.use_rag,
{
}

} // verus!
