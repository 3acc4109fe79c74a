//! Paths below a base directory.
use vstd::prelude::*;

verus! {

/// A path: a base directory and the components that are joined to it, one after the other. How
/// two components are written together is left to the platform that opens the path.
#[derive(Debug, PartialEq, Eq)]
pub struct ChildPath {
    pub base: String,
    pub parts: Vec<String>,
}

/// What a [`ChildPath`] denotes.
#[verifier::ext_equal]
pub struct ChildPathView {
    pub base: Seq<char>,
    pub parts: Seq<Seq<char>>,
}

impl ChildPathView {
    /// The path of an entry of this directory.
    pub open spec fn join(self, part: Seq<char>) -> ChildPathView {
        ChildPathView { base: self.base, parts: self.parts.push(part) }
    }

    /// Whether `other` is this path, or lies somewhere below it.
    pub open spec fn holds(self, other: ChildPathView) -> bool {
        self.base == other.base && self.parts.is_prefix_of(other.parts)
    }
}

/// The directory `base` itself.
pub open spec fn root_path(base: Seq<char>) -> ChildPathView {
    ChildPathView { base, parts: Seq::empty() }
}

impl View for ChildPath {
    type V = ChildPathView;

    open spec fn view(&self) -> ChildPathView {
        ChildPathView { base: self.base@, parts: self.parts.deep_view() }
    }
}

impl DeepView for ChildPath {
    type V = ChildPathView;

    open spec fn deep_view(&self) -> ChildPathView {
        self@
    }
}

impl ChildPath {
    /// The directory `base` itself.
    pub fn root(base: &str) -> (r: ChildPath)
        ensures
            r@ == root_path(base@),
    {
        let r = ChildPath { base: base.to_owned(), parts: Vec::new() };
        assert(r.parts.deep_view() =~= Seq::<Seq<char>>::empty());
        r
    }

    /// The path of an entry of this directory.
    pub fn join(self, part: &str) -> (r: ChildPath)
        ensures
            r@ == self@.join(part@),
    {
        let mut parts = self.parts;
        let ghost before = parts.deep_view();
        parts.push(part.to_owned());
        assert(parts.deep_view() =~= before.push(part@));
        ChildPath { base: self.base, parts }
    }
}

} // verus!
