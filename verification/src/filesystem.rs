//! The filesystem as the configuration resolver sees it: a capability that
//! resolves paths and tells regular files from everything else, and the
//! ascending search that is built on it.

use vstd::prelude::*;
use crate::path::{AbsolutePath, PathView};
use crate::search::{is_candidate, is_level, search};

verus! {

/// Why a path could not be brought into resolved form.
#[derive(Debug, Clone, Copy, PartialEq, Eq, Structural)]
pub enum PathResolutionError {
    /// The path, or a directory on the way to it, does not exist.
    NotFound,
    /// The path exists but may not be examined.
    PermissionDenied,
    /// Any other failure of the underlying storage.
    Io,
}

/// The model of the outcome of a resolution: the resolved path by its
/// components, or the reason for the failure.
pub open spec fn outcome_view(resolved: Result<AbsolutePath, PathResolutionError>) -> Result<
    PathView,
    PathResolutionError,
> {
    match resolved {
        Ok(path) => Ok(path@),
        Err(reason) => Err(reason),
    }
}

/// Filesystem operations.
///
/// An implementation supplies the two questions that need the storage,
/// `is_file` and `canonicalize`; the search is provided and works against any
/// implementation.
///
/// An implementation that answers for one known state of a filesystem says so
/// in `has_model` and describes that state in `files` and `resolution`: its
/// answers are then held to that description, and what the search returns is
/// determined. One that looks at storage which may change between two
/// questions has no model, which is the default, and nothing is claimed of
/// its answers.
pub trait Filesystem {
    /// Whether the answers of this filesystem are those of the state that
    /// `files` and `resolution` describe.
    open spec fn has_model(&self) -> bool {
        false
    }

    /// The paths that denote regular files. A directory, a missing entry and
    /// an entry that cannot be examined are all outside this set. It is
    /// meaningful where `has_model` holds.
    open spec fn files(&self) -> Set<PathView> {
        arbitrary()
    }

    /// What resolving the textual path `path` yields: its absolute form with
    /// links followed, or the reason why there is none. It is meaningful
    /// where `has_model` holds.
    open spec fn resolution(&self, path: Seq<char>) -> Result<PathView, PathResolutionError> {
        arbitrary()
    }

    /// Tells whether `path` denotes a regular file. Any failure to examine
    /// the path counts as "no".
    fn is_file(&self, path: &AbsolutePath) -> (regular: bool)
        ensures
            self.has_model() ==> regular == self.files().contains(path@),
    ;

    /// Resolves the textual path `path` to its absolute form.
    fn canonicalize(&self, path: &str) -> (resolved: Result<AbsolutePath, PathResolutionError>)
        ensures
            self.has_model() ==> outcome_view(resolved) == self.resolution(path@),
    ;

    /// Searches for a regular file named `name`, starting at `start`. Each
    /// level is asked first whether it is itself that file, then whether it
    /// holds an entry of that name that is one. Where neither is so, the
    /// search moves on to the parent, unless the level is `stop` or the root.
    ///
    /// Returns the path of the file, or `None` where no level has it.
    fn find_file_ascending(&self, start: &AbsolutePath, stop: &AbsolutePath, name: &str) -> (found:
        Option<AbsolutePath>)
        ensures
            self.has_model() ==> found.deep_view() == search(
                self.files(),
                start@,
                stop@,
                name@,
            ),
            found matches Some(path) ==> is_candidate(start@, stop@, name@, path@),
    {
        let wanted = name.to_owned();
        let mut dir = start.clone();
        loop
            invariant
                wanted@ == name@,
                is_level(start@, stop@, dir@),
                self.has_model() ==> search(self.files(), dir@, stop@, name@) == search(
                    self.files(),
                    start@,
                    stop@,
                    name@,
                ),
            decreases dir@.len(),
        {
            let named = match dir.file_name() {
                Some(last) => *last == wanted,
                None => false,
            };
            if named && self.is_file(&dir) {
                return Some(dir);
            }
            let entry = dir.join(name);
            if self.is_file(&entry) {
                return Some(entry);
            }
            if dir.same_as(stop) {
                return None;
            }
            if !dir.pop() {
                return None;
            }
        }
    }
}

} // verus!
