//! Slash-separated paths.

use vstd::prelude::*;

use crate::text::{chars_of, owned};

verus! {

/// The path that `rel` names when it is taken from `base`.
pub open spec fn join_path(base: Seq<char>, rel: Seq<char>) -> Seq<char> {
    if base.len() == 0 || (rel.len() > 0 && rel[0] == '/') {
        rel
    } else if base.last() == '/' {
        base + rel
    } else {
        base + seq!['/'] + rel
    }
}

/// The path that `rel` names when it is taken from `base`.
pub fn joined(base: &str, rel: &str) -> (r: String)
    ensures
        r@ == join_path(base@, rel@),
{
    let b = chars_of(base);
    let l = chars_of(rel);
    let n = b.len();
    if n == 0 || (l.len() > 0 && l[0] == '/') {
        owned(rel)
    } else if b[n - 1] == '/' {
        owned(base).concat(rel)
    } else {
        let mut s = owned(base);
        s.push('/');
        assert(s@ =~= base@ + seq!['/']);
        s.concat(rel)
    }
}

/// A relative path is taken from the base, with one slash between them, and an
/// absolute one as it is.
pub proof fn law_paths_are_joined(base: Seq<char>, rel: Seq<char>)
    ensures
        rel.len() > 0 && rel[0] == '/' ==> join_path(base, rel) == rel,
        base.len() == 0 ==> join_path(base, rel) == rel,
        base.len() > 0 && base.last() != '/' && (rel.len() == 0 || rel[0] != '/') ==> join_path(
            base,
            rel,
        ) == base + seq!['/'] + rel && join_path(base.push('/'), rel) == join_path(base, rel),
{
    assert(base.push('/') =~= base + seq!['/']);
}

} // verus!
