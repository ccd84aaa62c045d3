//! The normalised change records that the classifier emits and the
//! reconciler consumes.
use vstd::prelude::*;

verus! {

/// What kind of entry a creation brought into being.
#[derive(Debug, Clone, Copy, PartialEq, Eq, Structural)]
pub enum CreateKind {
    File,
    Directory,
}

/// One backend-agnostic change to the children of the watched directory.
/// Paths are held as text.
#[derive(Debug, PartialEq, Eq)]
pub enum Change {
    /// The cache is stale: the listing must be read afresh.
    Unknown,
    Create(CreateKind, String),
    Remove(String),
    /// Source path, then destination path.
    Rename(String, String),
    Modify(String),
}

/// The mathematical value of a [`Change`]: each path is its sequence of
/// characters.
pub enum ChangeView {
    Unknown,
    Create(CreateKind, Seq<char>),
    Remove(Seq<char>),
    Rename(Seq<char>, Seq<char>),
    Modify(Seq<char>),
}

impl View for Change {
    type V = ChangeView;

    open spec fn view(&self) -> ChangeView {
        match *self {
            Change::Unknown => ChangeView::Unknown,
            Change::Create(kind, path) => ChangeView::Create(kind, path@),
            Change::Remove(path) => ChangeView::Remove(path@),
            Change::Rename(from, to) => ChangeView::Rename(from@, to@),
            Change::Modify(path) => ChangeView::Modify(path@),
        }
    }
}

impl DeepView for Change {
    type V = ChangeView;

    open spec fn deep_view(&self) -> ChangeView {
        self.view()
    }
}

} // verus!
