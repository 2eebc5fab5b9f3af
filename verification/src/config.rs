//! Configuration validation and filter preparation.
//!
//! The caller probes each configured watch root on the filesystem and hands
//! the outcome in as a plain value; `setup` rejects the configuration on the
//! first root that is not an existing directory, and otherwise prepares the
//! filter sets, folding them once, here, for case-insensitive mode. A
//! configuration must also enable at least one of the two run modes.

use vstd::prelude::*;
use crate::casefold::fold_case;
use crate::casefold::folded;

verus! {

/// What a probe of one configured watch root found on the filesystem.
#[derive(Clone, Copy, PartialEq, Eq, Structural, Debug)]
pub enum DirStatus {
    /// The path exists and is a directory.
    IsDirectory,
    /// The path exists but is not a directory.
    NotDirectory,
    /// The path does not exist.
    Missing,
    /// The probe itself failed: the filesystem could not be asked.
    Unreadable,
}

/// One configured watch root together with what the caller's probe of the
/// filesystem found at it.
pub struct ProbedDirectory {
    pub path: String,
    pub status: DirStatus,
}

/// A fatal configuration error: reported, and the process exits before any
/// scanning or watching begins.
#[derive(PartialEq, Debug)]
pub enum ConfigError {
    /// The named watch root does not exist.
    PathDoesNotExist(String),
    /// The named watch root exists but is not a directory.
    PathNotDirectory(String),
    /// The named watch root could not be probed at all.
    PathCheckFailed(String),
    /// Neither watch mode nor immediate mode is enabled.
    NoModeEnabled,
}

/// The configuration error that one rejected watch root gives rise to.
pub open spec fn spec_dir_error(dir: ProbedDirectory) -> ConfigError {
    match dir.status {
        DirStatus::Missing => ConfigError::PathDoesNotExist(dir.path),
        DirStatus::NotDirectory => ConfigError::PathNotDirectory(dir.path),
        _ => ConfigError::PathCheckFailed(dir.path),
    }
}

/// Every probed watch root is an existing directory.
pub open spec fn all_directories(dirs: Seq<ProbedDirectory>) -> bool {
    forall|i: int| 0 <= i < dirs.len() ==> #[trigger] dirs[i].status == DirStatus::IsDirectory
}

/// Validate the watch roots and prepare the filter sets.
///
/// Succeeds exactly when every probed root is an existing directory; fails
/// with the error of the first root that is not. On success the roots come
/// back in order, and both filter sets come back folded according to the
/// case-sensitivity flag, element by element.
pub fn setup(
    directories: Vec<ProbedDirectory>,
    file_names: Vec<String>,
    file_extensions: Vec<String>,
    case_sensitive: bool,
) -> (r: Result<(Vec<String>, Vec<String>, Vec<String>), ConfigError>)
    ensures
        r is Ok <==> all_directories(directories@),
        (match r {
            Ok((roots, names, extensions)) => {
                &&& roots@.len() == directories@.len()
                &&& forall|i: int|
                    0 <= i < directories@.len() ==> #[trigger] roots@[i]@ == directories@[i].path@
                &&& names@.len() == file_names@.len()
                &&& forall|i: int|
                    0 <= i < file_names@.len() ==> #[trigger] names@[i]@ == folded(
                        case_sensitive,
                        file_names@[i]@,
                    )
                &&& extensions@.len() == file_extensions@.len()
                &&& forall|i: int|
                    0 <= i < file_extensions@.len() ==> #[trigger] extensions@[i]@ == folded(
                        case_sensitive,
                        file_extensions@[i]@,
                    )
            },
            Err(e) => exists|j: int|
                {
                    &&& 0 <= j < directories@.len()
                    &&& #[trigger] directories@[j].status != DirStatus::IsDirectory
                    &&& forall|k: int|
                        0 <= k < j ==> #[trigger] directories@[k].status == DirStatus::IsDirectory
                    &&& e == spec_dir_error(directories@[j])
                },
        }),
{
    let mut roots: Vec<String> = Vec::new();
    let mut i: usize = 0;
    while i < directories.len()
        invariant
            0 <= i <= directories@.len(),
            roots@.len() == i,
            forall|k: int|
                0 <= k < i ==> #[trigger] directories@[k].status == DirStatus::IsDirectory,
            forall|k: int| 0 <= k < i ==> #[trigger] roots@[k]@ == directories@[k].path@,
        decreases directories@.len() - i,
    {
        let dir = &directories[i];
        match dir.status {
            DirStatus::IsDirectory => {
                roots.push(dir.path.clone());
            },
            DirStatus::Missing => {
                return Err(ConfigError::PathDoesNotExist(dir.path.clone()));
            },
            DirStatus::NotDirectory => {
                return Err(ConfigError::PathNotDirectory(dir.path.clone()));
            },
            DirStatus::Unreadable => {
                return Err(ConfigError::PathCheckFailed(dir.path.clone()));
            },
        }
        i = i + 1;
    }

    let mut names: Vec<String> = Vec::new();
    let mut i: usize = 0;
    while i < file_names.len()
        invariant
            0 <= i <= file_names@.len(),
            names@.len() == i,
            forall|k: int|
                0 <= k < i ==> #[trigger] names@[k]@ == folded(case_sensitive, file_names@[k]@),
        decreases file_names@.len() - i,
    {
        names.push(fold_case(file_names[i].as_str(), case_sensitive));
        i = i + 1;
    }

    let mut extensions: Vec<String> = Vec::new();
    let mut i: usize = 0;
    while i < file_extensions.len()
        invariant
            0 <= i <= file_extensions@.len(),
            extensions@.len() == i,
            forall|k: int|
                0 <= k < i ==> #[trigger] extensions@[k]@ == folded(
                    case_sensitive,
                    file_extensions@[k]@,
                ),
        decreases file_extensions@.len() - i,
    {
        extensions.push(fold_case(file_extensions[i].as_str(), case_sensitive));
        i = i + 1;
    }

    Ok((roots, names, extensions))
}

/// At least one of watch mode and immediate mode must be enabled, else the
/// configuration is rejected before any processing begins.
pub fn validate_modes(watch: bool, immediate: bool) -> (r: Result<(), ConfigError>)
    ensures
        r is Ok <==> (watch || immediate),
        !(watch || immediate) ==> r == Err::<(), ConfigError>(ConfigError::NoModeEnabled),
{
    if watch || immediate {
        Ok(())
    } else {
        Err(ConfigError::NoModeEnabled)
    }
}

} // verus!
