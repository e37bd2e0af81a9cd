//! Validators: shell commands whose exit code decides whether work is accepted.

use vstd::prelude::*;

use crate::event::ValidatorStatus;
use crate::run::{SingleValidatorResult, ValidationResults, ValidationView, ValidatorView};
use crate::text::{chars_of, lemma_views_push, owned, slice, string_of, views};
use crate::utf8::{byte_len, lemma_skip_len, lemma_tail_start, tail, tail_start, width};

verus! {

/// How many bytes of a validator's output are kept.
pub const OUTPUT_LIMIT: usize = 10240;

/// How a validator's command ended.
#[derive(Debug)]
pub enum ValidatorRun {
    /// The command could not be run, for the given reason.
    NotRun(String),
    /// It ran, with its exit code and what it wrote.
    Ran { exit_code: Option<i32>, stdout: String, stderr: String },
}

/// What the run of a validator says.
#[verifier::ext_equal]
pub enum ValidatorRunView {
    NotRun(Seq<char>),
    Ran { exit_code: Option<i32>, stdout: Seq<char>, stderr: Seq<char> },
}

impl View for ValidatorRun {
    type V = ValidatorRunView;

    open spec fn view(&self) -> ValidatorRunView {
        match *self {
            ValidatorRun::NotRun(m) => ValidatorRunView::NotRun(m@),
            ValidatorRun::Ran { exit_code, stdout, stderr } => ValidatorRunView::Ran {
                exit_code,
                stdout: stdout@,
                stderr: stderr@,
            },
        }
    }
}

/// A command's two outputs as one text.
pub open spec fn combined(stdout: Seq<char>, stderr: Seq<char>) -> Seq<char> {
    if stderr.len() == 0 {
        stdout
    } else if stdout.len() == 0 {
        stderr
    } else {
        stdout + "\n"@ + stderr
    }
}

/// A text cut down to its last bytes, where it is longer than the limit. The cut
/// falls between two characters.
pub open spec fn truncated(s: Seq<char>) -> Seq<char> {
    if byte_len(s) > OUTPUT_LIMIT {
        "...[truncated]...\n"@ + tail(s, OUTPUT_LIMIT as nat)
    } else {
        s
    }
}

/// Whether the command ran and exited with code 0.
pub open spec fn exited_zero(run: ValidatorRunView) -> bool {
    match run {
        ValidatorRunView::NotRun(_) => false,
        ValidatorRunView::Ran { exit_code, .. } => exit_code == Some(0i32),
    }
}

/// The status that the run of a validator gives.
pub open spec fn run_status(run: ValidatorRunView) -> ValidatorStatus {
    if exited_zero(run) {
        ValidatorStatus::Pass
    } else {
        ValidatorStatus::Fail
    }
}

/// The result of a validator.
pub open spec fn validator_result(command: Seq<char>, run: ValidatorRunView) -> ValidatorView {
    ValidatorView {
        command,
        status: run_status(run),
        exit_code: match run {
            ValidatorRunView::NotRun(_) => None,
            ValidatorRunView::Ran { exit_code, .. } => exit_code,
        },
        output: match run {
            ValidatorRunView::NotRun(m) => Some(m),
            ValidatorRunView::Ran { exit_code, stdout, stderr } => Some(
                truncated(combined(stdout, stderr)),
            ),
        },
    }
}

/// Whether every result is a pass.
pub open spec fn all_pass(results: Seq<ValidatorView>) -> bool {
    forall|i: int|
        0 <= i < results.len() ==> (#[trigger] results[i]).status == ValidatorStatus::Pass
}

/// The results of validators, given how each of them ended.
pub open spec fn validation_of(
    commands: Seq<Seq<char>>,
    runs: Seq<ValidatorRunView>,
) -> ValidationView {
    let results = Seq::new(commands.len(), |i: int| validator_result(commands[i], runs[i]));
    ValidationView { validators: results, all_passed: all_pass(results) }
}

/// All validators pass exactly where each of them exits with code 0.
pub proof fn law_all_passed_iff_exit_zero(
    commands: Seq<Seq<char>>,
    runs: Seq<ValidatorRunView>,
)
    requires
        commands.len() == runs.len(),
    ensures
        validation_of(commands, runs).all_passed <==> forall|i: int|
            0 <= i < runs.len() ==> exited_zero(#[trigger] runs[i]),
{
    let results = validation_of(commands, runs).validators;
    if all_pass(results) {
        assert forall|i: int| 0 <= i < runs.len() implies exited_zero(#[trigger] runs[i]) by {
            assert(results[i].status == ValidatorStatus::Pass);
        }
    }
}

/// What is kept of an output is the output, or it ends with as many of the
/// output's last characters as the limit allows: at most the limit, and less
/// than it by no more than a part of one character.
pub proof fn law_truncated_keeps_tail(s: Seq<char>)
    ensures
        byte_len(s) <= OUTPUT_LIMIT ==> truncated(s) == s,
        byte_len(s) > OUTPUT_LIMIT ==> exists|k: int|
            0 < k <= s.len() && truncated(s) == "...[truncated]...\n"@ + #[trigger] s.skip(k)
                && OUTPUT_LIMIT - 3 <= byte_len(s.skip(k)) <= OUTPUT_LIMIT && byte_len(
                s.skip(k),
            ) + width(s[k - 1]) > OUTPUT_LIMIT,
{
    if byte_len(s) > OUTPUT_LIMIT {
        let k = lemma_tail_start(s, OUTPUT_LIMIT as nat);
        assert(s.skip(0) =~= s);
        lemma_skip_len(s, k);
        assert(truncated(s) == "...[truncated]...\n"@ + s.skip(k));
    }
}

fn combine(stdout: &str, stderr: &str) -> (r: Vec<char>)
    ensures
        r@ == combined(stdout@, stderr@),
{
    let out = chars_of(stdout);
    let err = chars_of(stderr);
    if err.len() == 0 {
        out
    } else if out.len() == 0 {
        err
    } else {
        chars_of(owned(stdout).concat("\n").concat(stderr).as_str())
    }
}

fn truncate_output(text: Vec<char>) -> (r: String)
    ensures
        r@ == truncated(text@),
{
    let k = tail_start(&text, OUTPUT_LIMIT);
    if k == 0 {
        return string_of(&text);
    }
    let n = text.len();
    assert(text@.subrange(k as int, n as int) =~= text@.skip(k as int));
    owned("...[truncated]...\n").concat(string_of(&slice(&text, k, n)).as_str())
}

/// Judges how a validator ended.
pub fn judge(command: &str, run: &ValidatorRun) -> (r: SingleValidatorResult)
    ensures
        r@ == validator_result(command@, run@),
{
    match run {
        ValidatorRun::NotRun(message) => SingleValidatorResult {
            command: owned(command),
            status: ValidatorStatus::Fail,
            exit_code: None,
            output: Some(message.clone()),
        },
        ValidatorRun::Ran { exit_code, stdout, stderr } => {
            let passed = match exit_code {
                Some(code) => *code == 0,
                None => false,
            };
            SingleValidatorResult {
                command: owned(command),
                status: if passed {
                    ValidatorStatus::Pass
                } else {
                    ValidatorStatus::Fail
                },
                exit_code: *exit_code,
                output: Some(truncate_output(combine(stdout.as_str(), stderr.as_str()))),
            }
        },
    }
}

/// Run validators standalone (for `ralpher validate` command).
/// Returns the validation results without needing a full run context, given
/// how each validator's command ended.
pub fn run_validators_standalone(validators: &[String], runs: &[ValidatorRun]) -> (r:
    ValidationResults)
    requires
        validators@.len() == runs@.len(),
    ensures
        r@ == validation_of(views(validators@), views(runs@)),
{
    let n = validators.len();
    let mut results: Vec<SingleValidatorResult> = Vec::new();
    let mut all_passed = true;
    let ghost expected = validation_of(views(validators@), views(runs@)).validators;
    for i in 0..n
        invariant
            n == validators@.len(),
            n == runs@.len(),
            expected == validation_of(views(validators@), views(runs@)).validators,
            views(results@) == expected.take(i as int),
            all_passed == all_pass(expected.take(i as int)),
    {
        broadcast use lemma_views_push;

        let result = judge(validators[i].as_str(), &runs[i]);
        assert(result@ == expected[i as int]);
        assert(expected.take(i + 1) =~= expected.take(i as int).push(expected[i as int]));
        proof {
            lemma_all_pass_push(expected.take(i as int), expected[i as int]);
        }
        if result.status != ValidatorStatus::Pass {
            all_passed = false;
        }
        results.push(result);
    }
    assert(expected.take(n as int) =~= expected);
    ValidationResults { validators: results, all_passed }
}

pub proof fn lemma_all_pass_push(results: Seq<ValidatorView>, next: ValidatorView)
    ensures
        all_pass(results.push(next)) <==> all_pass(results) && next.status == ValidatorStatus::Pass,
{
    if all_pass(results.push(next)) {
        assert forall|i: int| 0 <= i < results.len() implies (#[trigger] results[i]).status
            == ValidatorStatus::Pass by {
            assert(results.push(next)[i] == results[i]);
        }
        assert(results.push(next)[results.len() as int] == next);
    }
}

/// Both outputs of a command are kept, the errors behind the rest on lines of
/// their own. An empty one leaves the other as it is.
pub proof fn law_outputs_are_joined(stdout: Seq<char>, stderr: Seq<char>)
    ensures
        stdout.len() > 0 && stderr.len() > 0 ==> combined(stdout, stderr) == stdout + "\n"@ + stderr,
        stderr.len() == 0 ==> combined(stdout, stderr) == stdout,
        stdout.len() == 0 ==> combined(stdout, stderr) == stderr,
{
    if stdout.len() == 0 && stderr.len() == 0 {
        assert(stdout =~= stderr);
    }
}

/// The result of a validator tells its command, its exit code and what it wrote,
/// cut where that is too long.
pub proof fn law_result_tells_the_run(
    command: Seq<char>,
    code: Option<i32>,
    stdout: Seq<char>,
    stderr: Seq<char>,
    message: Seq<char>,
)
    ensures
        ({
            let ran = validator_result(
                command,
                ValidatorRunView::Ran { exit_code: code, stdout, stderr },
            );
            let failed = validator_result(command, ValidatorRunView::NotRun(message));
            &&& ran.command == command && failed.command == command
            &&& ran.exit_code == code && failed.exit_code is None
            &&& ran.output == Some(truncated(combined(stdout, stderr)))
            &&& failed.output == Some(message)
            &&& ran.status == ValidatorStatus::Pass <==> code == Some(0i32)
            &&& ran.status == ValidatorStatus::Fail <==> code != Some(0i32)
            &&& failed.status == ValidatorStatus::Fail
        }),
{
}

} // verus!
