//! Rules on which file changes an agent may make.

use vstd::prelude::*;

use crate::event::ViolationSeverity;
use crate::glob::{glob_match, matches_glob};
use crate::text::{clone_strings, lemma_views_push, owned, views};
use crate::workspace::{ChangeType, FileChange, FileChangeView};

verus! {

/// Action to take when a policy violation is detected.
#[derive(Clone, Copy, Debug, PartialEq, Eq, Structural)]
pub enum ViolationAction {
    /// Abort the run immediately.
    Abort,
    /// Reset the working tree (discard changes) and continue.
    Reset,
    /// Keep the changes and continue (log warning).
    Keep,
}

impl Default for ViolationAction {
    fn default() -> (r: Self)
        ensures
            r == ViolationAction::Abort,
    {
        ViolationAction::Abort
    }
}

/// A single policy violation.
#[derive(Debug)]
pub struct PolicyViolation {
    /// The rule that was violated.
    pub rule: String,
    /// Severity of the violation.
    pub severity: ViolationSeverity,
    /// Details about the violation.
    pub details: String,
    /// The file path involved.
    pub path: String,
}

/// What a violation says.
#[verifier::ext_equal]
pub struct ViolationView {
    pub rule: Seq<char>,
    pub severity: ViolationSeverity,
    pub details: Seq<char>,
    pub path: Seq<char>,
}

impl View for PolicyViolation {
    type V = ViolationView;

    open spec fn view(&self) -> ViolationView {
        ViolationView {
            rule: self.rule@,
            severity: self.severity,
            details: self.details@,
            path: self.path@,
        }
    }
}

impl Clone for PolicyViolation {
    fn clone(&self) -> (r: Self)
        ensures
            r@ == self@,
    {
        PolicyViolation {
            rule: self.rule.clone(),
            severity: self.severity,
            details: self.details.clone(),
            path: self.path.clone(),
        }
    }
}

/// Result of checking policies against changes.
#[derive(Debug)]
pub struct PolicyCheckResult {
    /// List of violations found.
    pub violations: Vec<PolicyViolation>,
    /// Whether there are any error-level violations.
    pub has_errors: bool,
}

impl Default for PolicyCheckResult {
    fn default() -> (r: Self)
        ensures
            r.violations@.len() == 0,
            !r.has_errors,
    {
        PolicyCheckResult { violations: Vec::new(), has_errors: false }
    }
}

impl PolicyCheckResult {
    /// Check if the result is clean (no violations).
    pub fn is_clean(&self) -> (r: bool)
        ensures
            r == (self.violations@.len() == 0),
    {
        self.violations.len() == 0
    }
}

/// Policy configuration for diff checking.
#[derive(Debug)]
pub struct PolicyConfig {
    /// Whether to deny file deletions (default: true).
    pub deny_deletes: bool,
    /// Whether to deny file renames (default: true).
    pub deny_renames: bool,
    /// Path patterns to allow (overrides deny rules).
    /// Supports glob patterns like "*.tmp", "test/**".
    pub allow_paths: Vec<String>,
    /// Path patterns to always deny (takes precedence over allow).
    pub deny_paths: Vec<String>,
    /// Action to take on violation (default: abort).
    pub on_violation: ViolationAction,
}

/// What a policy configuration says.
#[verifier::ext_equal]
pub struct PolicyView {
    pub deny_deletes: bool,
    pub deny_renames: bool,
    pub allow_paths: Seq<Seq<char>>,
    pub deny_paths: Seq<Seq<char>>,
    pub on_violation: ViolationAction,
}

impl View for PolicyConfig {
    type V = PolicyView;

    open spec fn view(&self) -> PolicyView {
        PolicyView {
            deny_deletes: self.deny_deletes,
            deny_renames: self.deny_renames,
            allow_paths: views(self.allow_paths@),
            deny_paths: views(self.deny_paths@),
            on_violation: self.on_violation,
        }
    }
}

impl Clone for PolicyConfig {
    fn clone(&self) -> (r: Self)
        ensures
            r@ == self@,
    {
        PolicyConfig {
            deny_deletes: self.deny_deletes,
            deny_renames: self.deny_renames,
            allow_paths: clone_strings(&self.allow_paths),
            deny_paths: clone_strings(&self.deny_paths),
            on_violation: self.on_violation,
        }
    }
}

/// The policy that denies deletions and renames everywhere.
pub open spec fn default_policy() -> PolicyView {
    PolicyView {
        deny_deletes: true,
        deny_renames: true,
        allow_paths: Seq::empty(),
        deny_paths: Seq::empty(),
        on_violation: ViolationAction::Abort,
    }
}

/// The policy that denies nothing.
pub open spec fn permissive_policy() -> PolicyView {
    PolicyView {
        deny_deletes: false,
        deny_renames: false,
        allow_paths: Seq::empty(),
        deny_paths: Seq::empty(),
        on_violation: ViolationAction::Keep,
    }
}

impl Default for PolicyConfig {
    fn default() -> (r: Self)
        ensures
            r@ == default_policy(),
    {
        PolicyConfig::new()
    }
}

impl PolicyConfig {
    /// Create a default policy config (deny deletes and renames).
    pub fn new() -> (r: Self)
        ensures
            r@ == default_policy(),
    {
        PolicyConfig {
            deny_deletes: true,
            deny_renames: true,
            allow_paths: Vec::new(),
            deny_paths: Vec::new(),
            on_violation: ViolationAction::Abort,
        }
    }

    /// Create a permissive policy config (allow everything).
    pub fn permissive() -> (r: Self)
        ensures
            r@ == permissive_policy(),
    {
        PolicyConfig {
            deny_deletes: false,
            deny_renames: false,
            allow_paths: Vec::new(),
            deny_paths: Vec::new(),
            on_violation: ViolationAction::Keep,
        }
    }
}

// ------------------------------------------------------------------- the rules

/// Whether one of the patterns matches the path.
pub open spec fn any_match(patterns: Seq<Seq<char>>, path: Seq<char>) -> bool {
    exists|i: int| 0 <= i < patterns.len() && glob_match(#[trigger] patterns[i], path)
}

/// The old path of a rename, as a violation names it.
pub open spec fn renamed_from(change: FileChangeView) -> Seq<char> {
    match change.old_path {
        Some(p) => p,
        None => "unknown"@,
    }
}

pub open spec fn denied_path(change: FileChangeView) -> ViolationView {
    ViolationView {
        rule: "deny_path"@,
        severity: ViolationSeverity::Error,
        details: "Path matches deny pattern: "@ + change.path,
        path: change.path,
    }
}

pub open spec fn denied_delete(change: FileChangeView) -> ViolationView {
    ViolationView {
        rule: "deny_deletes"@,
        severity: ViolationSeverity::Error,
        details: "File deletion not allowed: "@ + change.path,
        path: change.path,
    }
}

pub open spec fn denied_rename(change: FileChangeView) -> ViolationView {
    ViolationView {
        rule: "deny_renames"@,
        severity: ViolationSeverity::Error,
        details: "File rename not allowed: "@ + renamed_from(change) + " -> "@ + change.path,
        path: change.path,
    }
}

/// The violation, if any, that one change commits.
pub open spec fn violation_of(policy: PolicyView, change: FileChangeView) -> Option<ViolationView> {
    if any_match(policy.deny_paths, change.path) {
        Some(denied_path(change))
    } else if any_match(policy.allow_paths, change.path) {
        None
    } else if policy.deny_deletes && change.change_type == ChangeType::Deleted {
        Some(denied_delete(change))
    } else if policy.deny_renames && change.change_type == ChangeType::Renamed {
        Some(denied_rename(change))
    } else {
        None
    }
}

/// The violations of a list of changes, in the order of the changes.
pub open spec fn violations_of(policy: PolicyView, changes: Seq<FileChangeView>) -> Seq<
    ViolationView,
>
    decreases changes.len(),
{
    if changes.len() == 0 {
        Seq::empty()
    } else {
        let front = violations_of(policy, changes.drop_last());
        match violation_of(policy, changes.last()) {
            Some(v) => front.push(v),
            None => front,
        }
    }
}

// ------------------------------------------------------------------------ laws

/// Changes are clean exactly where each of them is.
pub proof fn law_clean_iff_each_clean(policy: PolicyView, changes: Seq<FileChangeView>)
    ensures
        violations_of(policy, changes).len() == 0 <==> forall|i: int|
            0 <= i < changes.len() ==> violation_of(policy, #[trigger] changes[i]) is None,
    decreases changes.len(),
{
    if changes.len() > 0 {
        let front = changes.drop_last();
        law_clean_iff_each_clean(policy, front);
        assert(forall|i: int| 0 <= i < front.len() ==> #[trigger] front[i] == changes[i]);
        assert(changes.last() == changes[changes.len() - 1]);
        if violations_of(policy, changes).len() == 0 {
            assert forall|i: int| 0 <= i < changes.len() implies violation_of(
                policy,
                #[trigger] changes[i],
            ) is None by {
                if i < front.len() {
                    assert(front[i] == changes[i]);
                }
            }
        }
    }
}

/// No change violates the permissive policy.
pub proof fn law_permissive_allows_all(changes: Seq<FileChangeView>)
    ensures
        violations_of(permissive_policy(), changes).len() == 0,
{
    law_clean_iff_each_clean(permissive_policy(), changes);
}

/// The default policy lets every change pass but deletions and renames, of
/// which each is a violation.
pub proof fn law_default_denies_deletes_and_renames(change: FileChangeView)
    ensures
        violation_of(default_policy(), change) is Some <==> change.change_type
            == ChangeType::Deleted || change.change_type == ChangeType::Renamed,
{
}

/// A denied path is a violation whatever the other rules say.
pub proof fn law_deny_takes_precedence(policy: PolicyView, change: FileChangeView)
    requires
        any_match(policy.deny_paths, change.path),
    ensures
        violation_of(policy, change) == Some(denied_path(change)),
{
}

/// An allowed path that is not denied may be deleted and renamed.
pub proof fn law_allow_overrides_rules(policy: PolicyView, change: FileChangeView)
    requires
        any_match(policy.allow_paths, change.path),
        !any_match(policy.deny_paths, change.path),
    ensures
        violation_of(policy, change) is None,
{
}

/// Every violation is an error.
pub proof fn law_violations_are_errors(policy: PolicyView, changes: Seq<FileChangeView>)
    ensures
        forall|i: int|
            0 <= i < violations_of(policy, changes).len() ==> (#[trigger] violations_of(
                policy,
                changes,
            )[i]).severity == ViolationSeverity::Error,
    decreases changes.len(),
{
    if changes.len() > 0 {
        law_violations_are_errors(policy, changes.drop_last());
    }
}

// ------------------------------------------------------------------- execution

fn any_matches(patterns: &Vec<String>, path: &str) -> (r: bool)
    ensures
        r == any_match(views(patterns@), path@),
{
    let n = patterns.len();
    for i in 0..n
        invariant
            n == patterns@.len(),
            forall|k: int| 0 <= k < i ==> !glob_match(#[trigger] views(patterns@)[k], path@),
    {
        assert(views(patterns@)[i as int] == patterns@[i as int]@);
        if matches_glob(patterns[i].as_str(), path) {
            return true;
        }
    }
    false
}

/// Policy engine for checking diff changes against rules.
#[derive(Debug)]
pub struct PolicyEngine {
    pub config: PolicyConfig,
}

impl PolicyEngine {
    /// Create a new policy engine with the given configuration.
    pub fn new(config: PolicyConfig) -> (r: Self)
        ensures
            r.config == config,
    {
        PolicyEngine { config }
    }

    /// Create a policy engine with default configuration.
    pub fn with_defaults() -> (r: Self)
        ensures
            r.config@ == default_policy(),
    {
        PolicyEngine::new(PolicyConfig::new())
    }

    /// Get the configured violation action.
    pub fn violation_action(&self) -> (r: ViolationAction)
        ensures
            r == self.config.on_violation,
    {
        self.config.on_violation
    }

    /// Check one change against the policy rules.
    fn check_change(&self, change: &FileChange) -> (r: Option<PolicyViolation>)
        ensures
            match r {
                Some(v) => violation_of(self.config@, change@) == Some(v@),
                None => violation_of(self.config@, change@) is None,
            },
    {
        let path = change.path.as_str();
        // Deny list has the highest priority
        if self.matches_deny_path(path) {
            return Some(
                PolicyViolation {
                    rule: owned("deny_path"),
                    severity: ViolationSeverity::Error,
                    details: owned("Path matches deny pattern: ").concat(path),
                    path: change.path.clone(),
                },
            );
        }
        // Allow list skips the other checks
        if self.matches_allow_path(path) {
            return None;
        }
        if self.config.deny_deletes && change.change_type == ChangeType::Deleted {
            return Some(
                PolicyViolation {
                    rule: owned("deny_deletes"),
                    severity: ViolationSeverity::Error,
                    details: owned("File deletion not allowed: ").concat(path),
                    path: change.path.clone(),
                },
            );
        }
        if self.config.deny_renames && change.change_type == ChangeType::Renamed {
            let old_path = match &change.old_path {
                Some(p) => p.as_str(),
                None => "unknown",
            };
            let details = owned("File rename not allowed: ").concat(old_path).concat(" -> ").concat(
                path,
            );
            return Some(
                PolicyViolation {
                    rule: owned("deny_renames"),
                    severity: ViolationSeverity::Error,
                    details,
                    path: change.path.clone(),
                },
            );
        }
        None
    }

    /// Check a list of file changes against the policy rules.
    pub fn check(&self, changes: &[FileChange]) -> (r: PolicyCheckResult)
        ensures
            views(r.violations@) == violations_of(self.config@, views(changes@)),
            r.has_errors == (r.violations@.len() > 0),
    {
        let mut result = PolicyCheckResult::default();
        let n = changes.len();
        let ghost cs = views(changes@);
        for i in 0..n
            invariant
                n == changes@.len(),
                cs == views(changes@),
                views(result.violations@) == violations_of(self.config@, cs.take(i as int)),
                result.has_errors == (result.violations@.len() > 0),
        {
            broadcast use lemma_views_push;

            assert(cs.take(i + 1).drop_last() =~= cs.take(i as int));
            assert(cs[i as int] == changes@[i as int]@);
            match self.check_change(&changes[i]) {
                Some(v) => {
                    result.violations.push(v);
                    result.has_errors = true;
                },
                None => {},
            }
        }
        assert(cs.take(n as int) =~= cs);
        result
    }

    /// Check if a path matches any allow pattern.
    pub fn matches_allow_path(&self, path: &str) -> (r: bool)
        ensures
            r == any_match(self.config@.allow_paths, path@),
    {
        any_matches(&self.config.allow_paths, path)
    }

    /// Check if a path matches any deny pattern.
    pub fn matches_deny_path(&self, path: &str) -> (r: bool)
        ensures
            r == any_match(self.config@.deny_paths, path@),
    {
        any_matches(&self.config.deny_paths, path)
    }
}

// ----------------------------------------------------------- what the rules forbid

/// Whether a change is forbidden: its path is denied, or it is a deletion or a
/// rename that the policy denies and no allowed path excuses.
pub open spec fn is_forbidden(policy: PolicyView, change: FileChangeView) -> bool {
    let denied = exists|i: int|
        0 <= i < policy.deny_paths.len() && glob_match(#[trigger] policy.deny_paths[i], change.path);
    let allowed = exists|i: int|
        0 <= i < policy.allow_paths.len() && glob_match(
            #[trigger] policy.allow_paths[i],
            change.path,
        );
    denied || (!allowed && ((policy.deny_deletes && change.change_type == ChangeType::Deleted) || (
    policy.deny_renames && change.change_type == ChangeType::Renamed)))
}

/// A change is a violation exactly where it is forbidden. The violation names
/// the path, and the first rule that the change breaks.
pub proof fn law_forbidden_changes_are_violations(policy: PolicyView, change: FileChangeView)
    ensures
        violation_of(policy, change) is Some <==> is_forbidden(policy, change),
        violation_of(policy, change) matches Some(v) ==> v.path == change.path && v.severity
            == ViolationSeverity::Error && (v.rule == "deny_path"@ || v.rule == "deny_deletes"@
            || v.rule == "deny_renames"@),
{
}

/// What a violation says of a denied path, of a deletion and of a rename.
pub proof fn law_violations_say_why(policy: PolicyView, change: FileChangeView)
    requires
        forall|i: int|
            0 <= i < policy.allow_paths.len() ==> !glob_match(
                #[trigger] policy.allow_paths[i],
                change.path,
            ),
    ensures
        ({
            let denied = exists|i: int|
                0 <= i < policy.deny_paths.len() && glob_match(
                    #[trigger] policy.deny_paths[i],
                    change.path,
                );
            let v = violation_of(policy, change);
            &&& denied ==> (v matches Some(x) && x.rule == "deny_path"@ && x.details
                == "Path matches deny pattern: "@ + change.path)
            &&& !denied && policy.deny_deletes && change.change_type == ChangeType::Deleted ==> (
            v matches Some(x) && x.rule == "deny_deletes"@ && x.details
                == "File deletion not allowed: "@ + change.path)
            &&& !denied && policy.deny_renames && change.change_type == ChangeType::Renamed
                && change.old_path is Some ==> (v matches Some(x) && x.rule == "deny_renames"@
                && x.details == "File rename not allowed: "@ + change.old_path->0 + " -> "@
                + change.path)
        }),
{
}

/// Each change adds its violation behind those of the changes before it, and
/// nothing where it is none.
pub proof fn law_violations_follow_changes(
    policy: PolicyView,
    changes: Seq<FileChangeView>,
    change: FileChangeView,
)
    ensures
        violation_of(policy, change) matches Some(v) ==> violations_of(
            policy,
            changes.push(change),
        ) == violations_of(policy, changes).push(v),
        violation_of(policy, change) is None ==> violations_of(policy, changes.push(change))
            == violations_of(policy, changes),
        violations_of(policy, Seq::empty()).len() == 0,
{
    assert(changes.push(change).drop_last() =~= changes);
}

/// The default policy denies deletions and renames, nothing else, and aborts.
pub proof fn law_default_policy()
    ensures
        default_policy().deny_deletes,
        default_policy().deny_renames,
        default_policy().allow_paths.len() == 0,
        default_policy().deny_paths.len() == 0,
        default_policy().on_violation == ViolationAction::Abort,
{
}

} // verus!
