//! A filesystem held in memory: a list of regular files and a table of path
//! resolutions. It stands in for the disk wherever the behaviour of the
//! search or of the resolver is to be shown on a known state.

use vstd::prelude::*;
use crate::filesystem::{outcome_view, Filesystem, PathResolutionError};
use crate::path::{AbsolutePath, PathView};

verus! {

/// One line of the resolution table: what resolving `text` yields.
struct Resolution {
    text: String,
    outcome: Result<AbsolutePath, PathResolutionError>,
}

/// A filesystem that holds exactly the regular files that were added to it,
/// and resolves exactly the textual paths that it was told about.
pub struct MemoryFilesystem {
    files: Vec<AbsolutePath>,
    resolutions: Vec<Resolution>,
}

/// The paths among `files`, as a set.
spec fn paths_of(files: Seq<AbsolutePath>) -> Set<PathView> {
    Set::new(|path: PathView| exists|i: int| 0 <= i < files.len() && (#[trigger] files[i])@ == path)
}

/// What the table `entries` says of `text`: the outcome of the latest line
/// for it, or `NotFound` where no line speaks of it.
spec fn lookup(entries: Seq<Resolution>, text: Seq<char>) -> Result<PathView, PathResolutionError>
    decreases entries.len(),
{
    if entries.len() == 0 {
        Err(PathResolutionError::NotFound)
    } else if entries.last().text@ == text {
        outcome_view(entries.last().outcome)
    } else {
        lookup(entries.drop_last(), text)
    }
}

impl MemoryFilesystem {
    /// A filesystem without any file, in which no path resolves.
    pub fn new() -> (fs: MemoryFilesystem)
        ensures
            fs.files() == Set::<PathView>::empty(),
            forall|text: Seq<char>|
                #[trigger] fs.resolution(text) == Err::<PathView, PathResolutionError>(
                    PathResolutionError::NotFound,
                ),
    {
        MemoryFilesystem { files: Vec::new(), resolutions: Vec::new() }
    }

    /// Makes `path` a regular file.
    pub fn add_file(&mut self, path: AbsolutePath)
        ensures
            final(self).files() == old(self).files().insert(path@),
            forall|text: Seq<char>|
                #[trigger] final(self).resolution(text) == old(self).resolution(text),
    {
        let ghost before = self.files@;
        self.files.push(path);
        assert(self.files() =~= old(self).files().insert(path@)) by {
            let after = self.files@;
            // The new file is the last of the list, and every other file
            // kept its place.
            assert(after[before.len() as int]@ == path@);
            assert forall|p: PathView| paths_of(before).contains(p) implies paths_of(
                after,
            ).contains(p) by {
                let i = choose|i: int| 0 <= i < before.len() && (#[trigger] before[i])@ == p;
                assert(after[i]@ == p);
            }
        }
    }

    /// Sets what resolving the textual path `text` yields from now on.
    pub fn set_resolution(&mut self, text: &str, outcome: Result<AbsolutePath, PathResolutionError>)
        ensures
            final(self).files() == old(self).files(),
            final(self).resolution(text@) == outcome_view(outcome),
            forall|other: Seq<char>|
                other != text@ ==> #[trigger] final(self).resolution(other) == old(
                    self,
                ).resolution(other),
    {
        let ghost before = self.resolutions@;
        self.resolutions.push(Resolution { text: text.to_owned(), outcome });
        assert(self.resolutions@.drop_last() =~= before);
    }
}

impl Filesystem for MemoryFilesystem {
    /// A filesystem in memory answers for the state that it holds.
    open spec fn has_model(&self) -> bool {
        true
    }

    closed spec fn files(&self) -> Set<PathView> {
        paths_of(self.files@)
    }

    closed spec fn resolution(&self, path: Seq<char>) -> Result<PathView, PathResolutionError> {
        lookup(self.resolutions@, path)
    }

    fn is_file(&self, path: &AbsolutePath) -> (regular: bool) {
        let mut i: usize = 0;
        while i < self.files.len()
            invariant
                i <= self.files.len(),
                forall|j: int| 0 <= j < i ==> (#[trigger] self.files@[j])@ != path@,
            decreases self.files.len() - i,
        {
            if self.files[i].same_as(path) {
                return true;
            }
            i += 1;
        }
        false
    }

    fn canonicalize(&self, path: &str) -> (resolved: Result<AbsolutePath, PathResolutionError>) {
        let wanted = path.to_owned();
        let mut i: usize = self.resolutions.len();
        assert(self.resolutions@.take(i as int) =~= self.resolutions@);
        while i > 0
            invariant
                i <= self.resolutions.len(),
                wanted@ == path@,
                lookup(self.resolutions@.take(i as int), path@) == lookup(
                    self.resolutions@,
                    path@,
                ),
            decreases i,
        {
            i -= 1;
            let ghost upto = self.resolutions@.take(i + 1);
            assert(upto.drop_last() =~= self.resolutions@.take(i as int));
            if self.resolutions[i].text == wanted {
                return match &self.resolutions[i].outcome {
                    Ok(resolved) => Ok(resolved.clone()),
                    Err(reason) => Err(*reason),
                };
            }
        }
        Err(PathResolutionError::NotFound)
    }
}

} // verus!
