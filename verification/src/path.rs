//! Paths as text, joined the way Unix joins them.

use vstd::prelude::*;
use vstd::string::StrSliceExecFns;
use vstd::string::StringExecFns;

verus! {

/// A path that starts at the filesystem root.
pub open spec fn is_absolute(p: Seq<char>) -> bool {
    p.len() > 0 && p[0] == '/'
}

/// `base` as a directory prefix: a separator is added unless `base` is empty
/// or already ends with one.
pub open spec fn as_directory(base: Seq<char>) -> Seq<char> {
    if base.len() > 0 && base.last() != '/' {
        base.push('/')
    } else {
        base
    }
}

/// `rel` adjoined to `base`. An absolute `rel` replaces `base`.
pub open spec fn joined_path(base: Seq<char>, rel: Seq<char>) -> Seq<char> {
    if is_absolute(rel) {
        rel
    } else {
        as_directory(base) + rel
    }
}

/// Adjoins `rel` to `base`.
pub fn join(base: &str, rel: &str) -> (r: String)
    ensures
        r@ == joined_path(base@, rel@),
{
    let rel_len = rel.unicode_len();
    if rel_len > 0 && rel.get_char(0) == '/' {
        return String::from_str(rel);
    }
    let mut out = String::from_str(base);
    let base_len = base.unicode_len();
    if base_len > 0 && base.get_char(base_len - 1) != '/' {
        proof {
            reveal_strlit("/");
        }
        out.append("/");
        assert(out@ =~= base@.push('/'));
    }
    out.append(rel);
    out
}

/// Adjoining a relative path keeps the directory prefix and puts the relative
/// path right behind it, so the result determines both.
pub proof fn lemma_join_relative(base: Seq<char>, rel: Seq<char>)
    requires
        !is_absolute(rel),
    ensures
        joined_path(base, rel).len() == as_directory(base).len() + rel.len(),
        joined_path(base, rel).subrange(0, as_directory(base).len() as int) == as_directory(base),
        joined_path(base, rel).subrange(
            as_directory(base).len() as int,
            joined_path(base, rel).len() as int,
        ) == rel,
{
    let d = as_directory(base);
    let j = joined_path(base, rel);
    assert(j.subrange(0, d.len() as int) =~= d);
    assert(j.subrange(d.len() as int, j.len() as int) =~= rel);
}

} // verus!
