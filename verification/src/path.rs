//! Locations on disk, kept as a root and the components joined onto it.

use vstd::prelude::*;

verus! {

/// The mathematical content of a [`BuildPath`].
pub struct PathModel {
    pub root: Seq<char>,
    pub parts: Seq<Seq<char>>,
}

impl PathModel {
    /// The path that results from joining one more component.
    pub open spec fn join(self, part: Seq<char>) -> PathModel {
        PathModel { root: self.root, parts: self.parts.push(part) }
    }

    /// The path that is `root` itself.
    pub open spec fn rooted(root: Seq<char>) -> PathModel {
        PathModel { root, parts: Seq::empty() }
    }
}

/// A location: a root taken as it was given, and the components joined onto it
/// one by one. The separator between components is left to the platform.
#[derive(Clone, Debug, PartialEq, Eq)]
pub struct BuildPath {
    pub root: String,
    pub parts: Vec<String>,
}

impl View for BuildPath {
    type V = PathModel;

    open spec fn view(&self) -> PathModel {
        PathModel { root: self.root@, parts: self.parts.deep_view() }
    }
}

impl DeepView for BuildPath {
    type V = PathModel;

    open spec fn deep_view(&self) -> PathModel {
        self@
    }
}

/// Copies a list of texts.
pub(crate) fn copy_texts(texts: &Vec<String>) -> (copy: Vec<String>)
    ensures
        copy.deep_view() == texts.deep_view(),
{
    let mut copy: Vec<String> = Vec::new();
    let mut i: usize = 0;
    while i < texts.len()
        invariant
            i <= texts.len(),
            copy.len() == i,
            forall|k: int| 0 <= k < i ==> copy[k]@ == texts[k]@,
        decreases texts.len() - i,
    {
        copy.push(texts[i].clone());
        i = i + 1;
    }
    copy
}

impl BuildPath {
    /// The path that is `root` itself.
    pub fn new(root: &str) -> (path: BuildPath)
        ensures
            path@ == PathModel::rooted(root@),
    {
        let path = BuildPath { root: root.to_owned(), parts: Vec::new() };
        assert(path.parts.deep_view() =~= Seq::<Seq<char>>::empty());
        path
    }

    /// This path with `part` joined onto it.
    pub fn join(&self, part: &str) -> (path: BuildPath)
        ensures
            path@ == self@.join(part@),
    {
        let mut parts = copy_texts(&self.parts);
        parts.push(part.to_owned());
        let path = BuildPath { root: self.root.clone(), parts };
        assert(path.parts.deep_view() =~= self.parts.deep_view().push(part@));
        path
    }
}

} // verus!
