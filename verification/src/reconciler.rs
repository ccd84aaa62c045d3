//! Applies change records to the cached listing of the watched directory.
//!
//! Entries are matched by path, never by position, so a change that names a
//! path the listing does not hold does nothing.
use vstd::prelude::*;
use crate::change::{Change, ChangeView};
use crate::file_list::{fresh_entry, FileListItem, FileListItemView};

verus! {

/// Whether the listing holds an entry for `path`.
pub open spec fn tracks(view: Seq<FileListItemView>, path: Seq<char>) -> bool {
    exists|i: int| 0 <= i < view.len() && (#[trigger] view[i]).path == path
}

/// Whether `i` is the position of the first entry for `path`.
pub open spec fn is_first_at(view: Seq<FileListItemView>, path: Seq<char>, i: int) -> bool {
    &&& 0 <= i < view.len()
    &&& view[i].path == path
    &&& forall|j: int| 0 <= j < i ==> (#[trigger] view[j]).path != path
}

/// The position of the first entry for `path`, where the listing holds one.
pub open spec fn first_at(view: Seq<FileListItemView>, path: Seq<char>) -> int {
    choose|i: int| is_first_at(view, path, i)
}

/// The listing without any entry for `path`, the others in their order.
pub open spec fn without(view: Seq<FileListItemView>, path: Seq<char>) -> Seq<FileListItemView> {
    view.filter(|entry: FileListItemView| entry.path != path)
}

/// The listing with its first entry for `from` replaced by a fresh entry
/// for `to`; the listing itself where it holds no entry for `from`.
pub open spec fn renamed(
    view: Seq<FileListItemView>,
    from: Seq<char>,
    to: Seq<char>,
) -> Seq<FileListItemView> {
    if tracks(view, from) {
        view.update(first_at(view, from), fresh_entry(to))
    } else {
        view
    }
}

/// The effect of each change on the listing. After `Unknown` the listing is
/// empty and has to be read afresh.
pub open spec fn apply_spec(change: ChangeView, view: Seq<FileListItemView>) -> Seq<
    FileListItemView,
> {
    match change {
        ChangeView::Unknown => Seq::empty(),
        ChangeView::Create(_, path) => view.push(fresh_entry(path)),
        ChangeView::Remove(path) => without(view, path),
        ChangeView::Rename(from, to) => renamed(view, from, to),
        ChangeView::Modify(_) => view,
    }
}

/// Removing a path that the listing does not hold leaves the listing as it
/// is.
pub proof fn lemma_remove_absent_is_noop(view: Seq<FileListItemView>, path: Seq<char>)
    requires
        !tracks(view, path),
    ensures
        apply_spec(ChangeView::Remove(path), view) == view,
    decreases view.len(),
{
    reveal(Seq::filter);
    if view.len() > 0 {
        let shorter = view.drop_last();
        assert forall|i: int| 0 <= i < shorter.len() implies (#[trigger] shorter[i]).path
            != path by {
        }
        lemma_remove_absent_is_noop(shorter, path);
    }
}

/// Renaming a path that the listing does not hold leaves the listing as it
/// is.
pub proof fn lemma_rename_absent_is_noop(
    view: Seq<FileListItemView>,
    from: Seq<char>,
    to: Seq<char>,
)
    requires
        !tracks(view, from),
    ensures
        apply_spec(ChangeView::Rename(from, to), view) == view,
{
}

/// Renaming a path that the listing holds replaces its first entry, in
/// place, by an unselected entry for the new path, whatever the selection
/// was, and leaves every other entry as it is.
pub proof fn lemma_rename_replaces_first_entry(
    view: Seq<FileListItemView>,
    from: Seq<char>,
    to: Seq<char>,
    i: int,
)
    requires
        is_first_at(view, from, i),
    ensures
        apply_spec(ChangeView::Rename(from, to), view).len() == view.len(),
        apply_spec(ChangeView::Rename(from, to), view)[i] == fresh_entry(to),
        forall|j: int|
            0 <= j < view.len() && j != i ==> apply_spec(ChangeView::Rename(from, to), view)[j]
                == view[j],
{
    assert(tracks(view, from));
    assert(is_first_at(view, from, first_at(view, from)));
}

/// A creation appends one fresh entry and leaves every earlier entry where
/// it was; it does so even where the path is listed already.
pub proof fn lemma_create_appends(
    kind: crate::change::CreateKind,
    path: Seq<char>,
    view: Seq<FileListItemView>,
)
    ensures
        apply_spec(ChangeView::Create(kind, path), view).len() == view.len() + 1,
        apply_spec(ChangeView::Create(kind, path), view).last() == fresh_entry(path),
        apply_spec(ChangeView::Create(kind, path), view).drop_last() == view,
{
}

/// After a removal the listing holds no entry for the path, and a second
/// removal of the same path changes nothing.
pub proof fn lemma_remove_is_idempotent(view: Seq<FileListItemView>, path: Seq<char>)
    ensures
        !tracks(without(view, path), path),
        without(without(view, path), path) == without(view, path),
{
    let kept = without(view, path);
    let keep = |entry: FileListItemView| entry.path != path;
    assert forall|i: int| 0 <= i < kept.len() implies (#[trigger] kept[i]).path != path by {
        view.lemma_filter_pred(keep, i);
    }
    lemma_remove_absent_is_noop(kept, path);
}

/// The first position at which the listing holds `path`, if any.
fn find_path(view: &Vec<FileListItem>, path: &String) -> (found: Option<usize>)
    ensures
        match found {
            Some(i) => is_first_at(view.deep_view(), path@, i as int),
            None => !tracks(view.deep_view(), path@),
        },
{
    let mut i: usize = 0;
    while i < view.len()
        invariant
            i <= view.len(),
            forall|j: int| 0 <= j < i ==> (#[trigger] view.deep_view()[j]).path != path@,
        decreases view.len() - i,
    {
        if view[i].path == *path {
            return Some(i);
        }
        i += 1;
    }
    None
}

/// Drops every entry for `path`, keeping the others in their order.
fn remove_path(view: &mut Vec<FileListItem>, path: &String)
    ensures
        final(view).deep_view() == without(old(view).deep_view(), path@),
{
    let ghost before = view.deep_view();
    let ghost keep = |entry: FileListItemView| entry.path != path@;
    let ghost seen: int = 0;
    let mut i: usize = 0;
    proof {
        reveal(Seq::filter);
    }
    while i < view.len()
        invariant
            i <= view.len(),
            0 <= seen <= before.len(),
            keep == |entry: FileListItemView| entry.path != path@,
            view.deep_view().take(i as int) == before.take(seen).filter(keep),
            view.deep_view().skip(i as int) == before.skip(seen),
        decreases view.len() - i,
    {
        proof {
            reveal(Seq::filter);
            assert(view.deep_view().skip(i as int).len() == before.skip(seen).len());
            assert(before.skip(seen)[0] == before[seen]);
            assert(before.take(seen + 1).drop_last() =~= before.take(seen));
            assert(before.skip(seen + 1) =~= before.skip(seen).skip(1));
            seen = seen + 1;
        }
        if view[i].path == *path {
            view.remove(i);
        } else {
            i += 1;
        }
    }
    proof {
        assert(before.take(seen) =~= before);
    }
}

/// Applies one change to the cached listing.
///
/// The result says whether the listing has to be read afresh: it does after
/// `Unknown`, which leaves the listing empty, and after nothing else.
pub fn apply(change: Change, view: &mut Vec<FileListItem>) -> (relist: bool)
    ensures
        final(view).deep_view() == apply_spec(change@, old(view).deep_view()),
        relist == (change@ is Unknown),
{
    let ghost before = view.deep_view();
    match change {
        Change::Unknown => {
            view.clear();
            true
        },
        Change::Create(_, path) => {
            view.push(FileListItem::new(path));
            false
        },
        Change::Remove(path) => {
            remove_path(view, &path);
            false
        },
        Change::Rename(from, to) => {
            match find_path(view, &from) {
                Some(i) => {
                    assert(first_at(before, from@) == i as int);
                    view[i] = FileListItem::new(to);
                },
                None => {},
            }
            false
        },
        Change::Modify(_) => false,
    }
}

} // verus!
