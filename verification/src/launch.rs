//! What the program decides before its interface starts.
use vstd::prelude::*;

use crate::text::{trim, trimmed};

verus! {

broadcast use vstd::string::group_string_axioms;

/// Whether a folder is an SPT installation: it holds the game's executable
/// and a `BepInEx` or an `SPT` folder.
pub fn is_spt_folder(has_game_exe: bool, has_bepinex_dir: bool, has_spt_dir: bool) -> (b: bool)
    ensures
        b == (has_game_exe && (has_bepinex_dir || has_spt_dir)),
{
    has_game_exe && (has_bepinex_dir || has_spt_dir)
}

/// The branch that the branch file's `contents` (none where it could not
/// be read) names: its contents trimmed, unless that leaves nothing; then
/// `default_branch`.
pub open spec fn branch_from_file(contents: Option<Seq<char>>, default_branch: Seq<char>) -> Seq<
    char,
> {
    match contents {
        Some(c) => if trim(c).len() > 0 {
            trim(c)
        } else {
            default_branch
        },
        None => default_branch,
    }
}

/// The branch to follow (see `branch_from_file`).
pub fn saved_branch(contents: Option<&str>, default_branch: &str) -> (r: String)
    ensures
        r@ == branch_from_file(
            match contents {
                Some(c) => Some(c@),
                None => None,
            },
            default_branch@,
        ),
{
    match contents {
        Some(c) => {
            let t = trimmed(c);
            if t.as_str().is_empty() {
                default_branch.to_string()
            } else {
                t
            }
        },
        None => default_branch.to_string(),
    }
}

/// The git program to run: the one bundled beside the updater
/// (`git/git.exe`) where it exists, else `git` from the search path.
pub fn git_program(bundled_exists: bool) -> (r: &'static str)
    ensures
        bundled_exists ==> r@ == "git/git.exe"@,
        !bundled_exists ==> r@ == "git"@,
{
    if bundled_exists {
        "git/git.exe"
    } else {
        "git"
    }
}

} // verus!
