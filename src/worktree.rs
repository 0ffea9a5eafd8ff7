use vstd::prelude::*;
use crate::notes::{strip_prefix, stripped};
use crate::text::push_char;

verus! {

/// What `slugify::slugify` gives for a text with no stop words, `-` as the
/// separator and no length limit.
pub uninterp spec fn slug_of(s: Seq<char>) -> Seq<char>;

/// Relies on `slugify::slugify(text, "", "-", None)`: the text in lower-case
/// ASCII words joined by dashes.
#[verifier::external_body]
pub(crate) fn slugify_text(text: &str) -> (r: String)
    ensures
        r@ == slug_of(text@),
{
    slugify::slugify(text, "", "-", None)
}

/// The directory, relative to a repository, that holds the worktree of a
/// branch: `.worktrees/` and the branch name's slug.
pub fn worktree_path(branch_name: &str) -> (r: String)
    ensures
        r@ == ".worktrees/"@ + slug_of(branch_name@),
{
    let slug = slugify_text(branch_name);
    let r = String::from_str(".worktrees/");
    r.concat(slug.as_str())
}

/// A repository's path as listed for picking: the path below the
/// repositories directory, or `None` for the directory itself.
pub open spec fn relative_repo_of(path: Seq<char>, repos_dir: Seq<char>) -> Option<Seq<char>> {
    let rel = match stripped(path, repos_dir + seq!['/']) {
        Some(rest) => rest,
        None => path,
    };
    if rel.len() == 0 {
        None
    } else {
        Some(rel)
    }
}

/// The path of a repository found under `repos_dir`, relative to it.
pub fn relative_repo_path(path: &str, repos_dir: &str) -> (r: Option<String>)
    ensures
        match r {
            Some(s) => relative_repo_of(path@, repos_dir@) == Some(s@),
            None => relative_repo_of(path@, repos_dir@).is_none(),
        },
{
    let mut prefix = String::from_str(repos_dir);
    push_char(&mut prefix, '/');
    assert(prefix@ =~= repos_dir@ + seq!['/']);
    let rel = match strip_prefix(path, prefix.as_str()) {
        Some(rest) => rest,
        None => path,
    };
    if rel.unicode_len() == 0 {
        None
    } else {
        Some(String::from_str(rel))
    }
}

} // verus!
