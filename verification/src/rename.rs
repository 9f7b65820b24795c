//! Renaming an existing meeting folder in place.
//!
//! The new name is sanitized to a single component, so the folder always stays
//! beside its siblings in the recordings directory. Unlike creation this does
//! not silently uniquify: an explicit rename onto an existing folder is reported
//! as an error so the caller can tell the user. What the file system holds is
//! asked by the caller; these functions make the decisions.

use vstd::prelude::*;
use crate::meeting_folder;
use crate::meeting_folder::sanitize_component;

verus! {

/// What to do about a rename request, before the target is looked at.
#[derive(Debug)]
pub enum RenameStep {
    /// The current folder is not a directory (any more): report that it no
    /// longer exists.
    FolderMissing,
    /// The current folder has no parent directory to rename within.
    NoParent,
    /// The folder already has the requested name: nothing to do.
    Unchanged,
    /// Check whether a folder of this name exists beside the current one, then
    /// finish with `finish_rename`.
    ProbeTarget(String),
}

/// How a rename ends once it is known whether the target exists.
#[derive(Debug)]
pub enum RenameOutcome {
    /// A folder of this name already exists in the recordings directory.
    TargetExists(String),
    /// Rename the folder to this name, beside where it is.
    Rename(String),
}

/// Whether the folder already bears the name that `new_folder_name` sanitizes to.
pub open spec fn already_named(current_name: Option<&str>, new_folder_name: Seq<char>) -> bool {
    match current_name {
        Some(n) => n@ == meeting_folder::sanitized(new_folder_name),
        None => false,
    }
}

/// The first step of renaming a folder to `new_folder_name`.
///
/// `current_is_dir` tells whether the current folder is a directory,
/// `has_parent` whether its path has a parent, and `current_name` is its last
/// path component where that is valid UTF-8. Renaming to the identical name is
/// a no-op, not an error; the raw names are compared, so a case-only rename
/// ("demo" -> "Demo") still goes ahead on case-insensitive file systems.
pub fn plan_rename(
    current_is_dir: bool,
    has_parent: bool,
    current_name: Option<&str>,
    new_folder_name: &str,
) -> (step: RenameStep)
    ensures
        !current_is_dir ==> step is FolderMissing,
        current_is_dir && !has_parent ==> step is NoParent,
        current_is_dir && has_parent && already_named(current_name, new_folder_name@)
            ==> step is Unchanged,
        current_is_dir && has_parent && !already_named(current_name, new_folder_name@) ==> (
        step matches RenameStep::ProbeTarget(t) && t@ == meeting_folder::sanitized(
            new_folder_name@,
        )),
        current_is_dir && has_parent && current_name is Some && current_name.unwrap()@
            == meeting_folder::sanitized(new_folder_name@) ==> step is Unchanged,
        current_is_dir && has_parent && !(current_name is Some && current_name.unwrap()@
            == meeting_folder::sanitized(new_folder_name@)) ==> (
        step matches RenameStep::ProbeTarget(t) && t@ == meeting_folder::sanitized(
            new_folder_name@,
        )),
{
    if !current_is_dir {
        return RenameStep::FolderMissing;
    }
    let sanitized = sanitize_component(new_folder_name);
    if !has_parent {
        return RenameStep::NoParent;
    }
    let unchanged = match current_name {
        Some(n) => n.to_owned() == sanitized,
        None => false,
    };
    if unchanged {
        RenameStep::Unchanged
    } else {
        RenameStep::ProbeTarget(sanitized)
    }
}

/// The end of a rename to `target`, given whether an entry of that name
/// exists beside the current folder and whether that entry is the current
/// folder itself. On a case-insensitive file system a case-only rename
/// ("demo" -> "Demo") finds the folder itself under the new name; that is no
/// collision, and the rename goes ahead.
pub fn finish_rename(target: String, target_exists: bool, target_is_current: bool) -> (outcome:
    RenameOutcome)
    ensures
        target_exists && !target_is_current ==> (outcome matches RenameOutcome::TargetExists(t)
            && t@ == target@),
        !(target_exists && !target_is_current) ==> (outcome matches RenameOutcome::Rename(t) && t@
            == target@),
{
    if target_exists && !target_is_current {
        RenameOutcome::TargetExists(target)
    } else {
        RenameOutcome::Rename(target)
    }
}

/// A rename is a no-op exactly when the folder's current name is the
/// sanitized new name, character for character: any other current name
/// (a longer one that starts with it, one differing only in case, or a name
/// that is not valid UTF-8) leads to a rename.
pub proof fn lemma_unchanged_only_on_exact_name(
    current_name: Option<&str>,
    new_folder_name: Seq<char>,
)
    ensures
        already_named(current_name, new_folder_name) <==> (current_name is Some
            && current_name.unwrap()@ == meeting_folder::sanitized(new_folder_name)),
{
}

/// A rename never leaves the recordings directory: the name it renames to is a
/// single usable path component, with no separator, and not `.` or `..`.
pub proof fn lemma_rename_target_stays_in_place(new_folder_name: Seq<char>)
    ensures
        meeting_folder::sanitized(new_folder_name).len() > 0,
        !meeting_folder::is_unusable_component(meeting_folder::sanitized(new_folder_name)),
        forall|i: int|
            0 <= i < meeting_folder::sanitized(new_folder_name).len() ==> {
                let c = #[trigger] meeting_folder::sanitized(new_folder_name)[i];
                c != '/' && c != '\\'
            },
{
    meeting_folder::lemma_sanitized_is_single_component(new_folder_name);
}

} // verus!
