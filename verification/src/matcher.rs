//! The matcher: decides whether a filesystem entry qualifies for hiding.
//!
//! The caller observes the entry (its name, its extension if any, its kind)
//! and hands those plain values in; the matcher holds them against the
//! configured name and extension filters. Filter sets are expected as the
//! configuration step produced them, already folded for case-insensitive
//! mode.

use vstd::prelude::*;
use crate::casefold::fold_case;
use crate::casefold::folded;

verus! {

/// The observed kind of a filesystem entry at the time of the check.
#[derive(Clone, Copy, PartialEq, Eq, Structural, Debug)]
pub enum EntryKind {
    File,
    Directory,
    /// Neither a regular file nor a directory.
    Other,
}

/// A non-fatal, per-entry failure of the matcher; the entry is skipped and
/// processing continues.
#[derive(Clone, Copy, PartialEq, Eq, Structural, Debug)]
pub enum MatchError {
    /// The file matched no name filter and has no extension to hold against
    /// the extension filters.
    MissingExtension,
}

/// What the caller is to do with an entry the matcher accepted.
#[derive(Clone, Copy, PartialEq, Eq, Structural, Debug)]
pub enum HideAction {
    /// Invoke the hide primitive on the path.
    Hide,
    /// Dry-run mode: report which path would have been hidden, touch nothing.
    DryRun,
    /// The entry does not qualify; do nothing.
    Skip,
}

/// True when some element of `filters` reads as the characters `s`.
pub open spec fn set_has(filters: Seq<String>, s: Seq<char>) -> bool {
    exists|i: int| 0 <= i < filters.len() && filters[i]@ == s
}

/// The view of an optional observed extension.
pub open spec fn view_opt(e: Option<&str>) -> Option<Seq<char>> {
    match e {
        Some(s) => Some(s@),
        None => None,
    }
}

/// The matcher's decision, in order:
/// with both filter sets empty every entry matches, whatever its kind;
/// a file (when file-hiding is enabled) matches on its folded name, else on
/// its folded extension, and a file with neither a name match nor an
/// extension is an error;
/// a directory (when directory-hiding is enabled) matches on its folded name
/// only, never against extensions;
/// anything else does not match.
pub open spec fn spec_should_hide(
    name: Seq<char>,
    extension: Option<Seq<char>>,
    kind: EntryKind,
    file_names: Seq<String>,
    file_extensions: Seq<String>,
    case_sensitive: bool,
    hide_files: bool,
    hide_directories: bool,
) -> Result<bool, MatchError> {
    if file_names.len() == 0 && file_extensions.len() == 0 {
        Ok(true)
    } else if kind == EntryKind::File && hide_files {
        if set_has(file_names, folded(case_sensitive, name)) {
            Ok(true)
        } else {
            match extension {
                None => Err(MatchError::MissingExtension),
                Some(e) => Ok(set_has(file_extensions, folded(case_sensitive, e))),
            }
        }
    } else if kind == EntryKind::Directory && hide_directories {
        Ok(set_has(file_names, folded(case_sensitive, name)))
    } else {
        Ok(false)
    }
}

/// Whether some element of `filters` equals `s`, character for character.
pub fn contains_string(filters: &Vec<String>, s: &String) -> (r: bool)
    ensures
        r == set_has(filters@, s@),
{
    let mut i: usize = 0;
    while i < filters.len()
        invariant
            0 <= i <= filters@.len(),
            forall|j: int| 0 <= j < i ==> filters@[j]@ != s@,
        decreases filters@.len() - i,
    {
        if filters[i].eq(s) {
            return true;
        }
        i = i + 1;
    }
    false
}

/// Decide whether the observed entry qualifies for hiding.
pub fn should_hide_file(
    name: &str,
    extension: Option<&str>,
    kind: EntryKind,
    file_names: &Vec<String>,
    file_extensions: &Vec<String>,
    case_sensitive: bool,
    hide_files: bool,
    hide_directories: bool,
) -> (r: Result<bool, MatchError>)
    ensures
        r == spec_should_hide(
            name@,
            view_opt(extension),
            kind,
            file_names@,
            file_extensions@,
            case_sensitive,
            hide_files,
            hide_directories,
        ),
{
    if file_names.len() == 0 && file_extensions.len() == 0 {
        return Ok(true);
    }
    match kind {
        EntryKind::File => {
            if hide_files {
                let folded_name = fold_case(name, case_sensitive);
                if contains_string(file_names, &folded_name) {
                    Ok(true)
                } else {
                    match extension {
                        None => Err(MatchError::MissingExtension),
                        Some(e) => {
                            let folded_ext = fold_case(e, case_sensitive);
                            Ok(contains_string(file_extensions, &folded_ext))
                        },
                    }
                }
            } else {
                Ok(false)
            }
        },
        EntryKind::Directory => {
            if hide_directories {
                let folded_name = fold_case(name, case_sensitive);
                Ok(contains_string(file_names, &folded_name))
            } else {
                Ok(false)
            }
        },
        EntryKind::Other => Ok(false),
    }
}

/// What is to happen to an entry: the matcher's verdict turned into an
/// action, with dry-run mode substituting a report for the hide.
pub open spec fn spec_handle_path(
    name: Seq<char>,
    extension: Option<Seq<char>>,
    kind: EntryKind,
    file_names: Seq<String>,
    file_extensions: Seq<String>,
    case_sensitive: bool,
    hide_files: bool,
    hide_directories: bool,
    test_mode: bool,
) -> Result<HideAction, MatchError> {
    match spec_should_hide(
        name,
        extension,
        kind,
        file_names,
        file_extensions,
        case_sensitive,
        hide_files,
        hide_directories,
    ) {
        Err(e) => Err(e),
        Ok(true) => Ok(
            if test_mode {
                HideAction::DryRun
            } else {
                HideAction::Hide
            },
        ),
        Ok(false) => Ok(HideAction::Skip),
    }
}

/// Process one observed entry: run it through the matcher and say what the
/// caller is to do with it.
pub fn handle_path(
    name: &str,
    extension: Option<&str>,
    kind: EntryKind,
    file_names: &Vec<String>,
    file_extensions: &Vec<String>,
    case_sensitive: bool,
    hide_files: bool,
    hide_directories: bool,
    test_mode: bool,
) -> (r: Result<HideAction, MatchError>)
    ensures
        r == spec_handle_path(
            name@,
            view_opt(extension),
            kind,
            file_names@,
            file_extensions@,
            case_sensitive,
            hide_files,
            hide_directories,
            test_mode,
        ),
{
    match should_hide_file(
        name,
        extension,
        kind,
        file_names,
        file_extensions,
        case_sensitive,
        hide_files,
        hide_directories,
    ) {
        Err(e) => Err(e),
        Ok(true) => Ok(
            if test_mode {
                HideAction::DryRun
            } else {
                HideAction::Hide
            },
        ),
        Ok(false) => Ok(HideAction::Skip),
    }
}

/// In dry-run mode the hide primitive is never invoked: whatever the entry
/// and the filters, the action is a report or a skip, never a hide.
pub proof fn lemma_dry_run_never_hides(
    name: Seq<char>,
    extension: Option<Seq<char>>,
    kind: EntryKind,
    file_names: Seq<String>,
    file_extensions: Seq<String>,
    case_sensitive: bool,
    hide_files: bool,
    hide_directories: bool,
)
    ensures
        spec_handle_path(
            name,
            extension,
            kind,
            file_names,
            file_extensions,
            case_sensitive,
            hide_files,
            hide_directories,
            true,
        ) != Ok::<HideAction, MatchError>(HideAction::Hide),
{
}

/// With both filter sets empty, every entry qualifies for hiding, whatever
/// its kind and whichever kinds of entry are enabled.
pub proof fn lemma_empty_filters_hide_all(
    name: Seq<char>,
    extension: Option<Seq<char>>,
    kind: EntryKind,
    case_sensitive: bool,
    hide_files: bool,
    hide_directories: bool,
)
    ensures
        spec_should_hide(
            name,
            extension,
            kind,
            Seq::<String>::empty(),
            Seq::<String>::empty(),
            case_sensitive,
            hide_files,
            hide_directories,
        ) == Ok::<bool, MatchError>(true),
{
}

} // verus!
