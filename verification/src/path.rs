//! Absolute paths as sequences of component names below the filesystem root.
//!
//! A path is held in resolved form: every component is the name of one
//! directory entry, outermost first, and the root directory is the path without
//! components. Resolving a path to this form is the caller's business; nothing
//! here touches a filesystem.

use vstd::prelude::*;
use vstd::std_specs::cmp::PartialEqSpecImpl;

verus! {

/// The mathematical model of a path: its component names, outermost first.
pub type PathView = Seq<Seq<char>>;

/// An absolute path in resolved form.
#[derive(Debug)]
pub struct AbsolutePath {
    components: Vec<String>,
}

impl View for AbsolutePath {
    type V = PathView;

    closed spec fn view(&self) -> PathView {
        self.components.deep_view()
    }
}

impl DeepView for AbsolutePath {
    type V = PathView;

    open spec fn deep_view(&self) -> PathView {
        self@
    }
}

impl AbsolutePath {
    /// The root directory.
    pub fn root() -> (path: AbsolutePath)
        ensures
            path@ == PathView::empty(),
    {
        AbsolutePath { components: Vec::new() }
    }

    /// The path made of the given component names, outermost first.
    pub fn from_components(components: Vec<String>) -> (path: AbsolutePath)
        ensures
            path@ == components.deep_view(),
    {
        AbsolutePath { components }
    }

    /// The component names, outermost first.
    pub fn components(&self) -> (components: &Vec<String>)
        ensures
            components.deep_view() == self@,
    {
        &self.components
    }

    /// The last component, which names the entry itself; the root has none.
    pub fn file_name(&self) -> (name: Option<&String>)
        ensures
            match name {
                Some(n) => self@.len() > 0 && n@ == self@.last(),
                None => self@.len() == 0,
            },
    {
        let n = self.components.len();
        if n == 0 {
            None
        } else {
            Some(&self.components[n - 1])
        }
    }

    /// The path one level deeper, reached through the entry `name`.
    pub fn join(&self, name: &str) -> (path: AbsolutePath)
        ensures
            path@ == self@.push(name@),
    {
        let mut path = self.clone();
        path.components.push(name.to_owned());
        path
    }

    /// Tells whether the two paths have the same components in the same
    /// order.
    pub fn same_as(&self, other: &AbsolutePath) -> (same: bool)
        ensures
            same == (self@ == other@),
    {
        if self.components.len() != other.components.len() {
            assert(self@.len() != other@.len());
            return false;
        }
        let mut i: usize = 0;
        while i < self.components.len()
            invariant
                i <= self.components.len(),
                self.components.len() == other.components.len(),
                forall|j: int| 0 <= j < i ==> self@[j] == other@[j],
            decreases self.components.len() - i,
        {
            if self.components[i] != other.components[i] {
                assert(self@[i as int] != other@[i as int]);
                return false;
            }
            i += 1;
        }
        assert(self@ =~= other@);
        true
    }

    /// Moves to the parent directory. Returns `false`, and leaves the path as
    /// it is, when the path is the root.
    pub fn pop(&mut self) -> (moved: bool)
        ensures
            moved == (old(self)@.len() > 0),
            moved ==> final(self)@ == old(self)@.drop_last(),
            !moved ==> final(self)@ == old(self)@,
    {
        let last = self.components.pop();
        last.is_some()
    }
}

impl Clone for AbsolutePath {
    fn clone(&self) -> (path: AbsolutePath)
        ensures
            path@ == self@,
    {
        let mut components: Vec<String> = Vec::new();
        let mut i: usize = 0;
        while i < self.components.len()
            invariant
                i <= self.components.len(),
                components@.len() == i,
                forall|j: int| 0 <= j < i ==> components@[j]@ == self.components@[j]@,
            decreases self.components.len() - i,
        {
            components.push(self.components[i].clone());
            i += 1;
        }
        AbsolutePath { components }
    }
}

impl PartialEq for AbsolutePath {
    /// Two paths are equal when they have the same components in the same
    /// order.
    fn eq(&self, other: &AbsolutePath) -> (equal: bool) {
        self.same_as(other)
    }
}

impl PartialEqSpecImpl for AbsolutePath {
    open spec fn obeys_eq_spec() -> bool {
        true
    }

    open spec fn eq_spec(&self, other: &AbsolutePath) -> bool {
        self@ == other@
    }
}

impl Eq for AbsolutePath {}

} // verus!
