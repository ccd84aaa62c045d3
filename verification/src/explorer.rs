//! The consumer's side: the directory on show, its cached listing, and the
//! dialogs that wait for the user.
use vstd::prelude::*;
use std::collections::VecDeque;
use crate::change::{Change, ChangeView};
use crate::classifier::PathProbe;
use crate::file_list::{
    fresh_entry, FileListAction, FileListActionView, FileListItem, FileListItemView,
    FileListWidget, ItemKind,
};
use crate::reconciler::{apply, apply_spec};
use crate::watcher::{outcome_view, polled_view, Watcher};

verus! {

/// What is to be done about an entry that the user wants deleted.
#[derive(Debug, Clone, Copy, PartialEq, Eq, Structural)]
pub enum DeletePlan {
    /// The entry is gone or cannot be read: leave it.
    Nothing,
    /// The entry holds something: ask the user first.
    Confirm,
    /// An empty file: remove it.
    RemoveFile,
    /// An empty directory: remove it.
    RemoveDirectory,
}

/// What is to be removed once the user has agreed.
#[derive(Debug, Clone, Copy, PartialEq, Eq, Structural)]
pub enum Removal {
    File,
    /// The directory and all that is in it.
    DirectoryTree,
    /// Neither a file nor a directory any more: nothing to remove.
    Nothing,
}

/// The plan for deleting an entry, from what the disk said of it and, where
/// it could be read, whether it holds anything.
pub open spec fn delete_plan_spec(probe: PathProbe, holds_something: Option<bool>) -> DeletePlan {
    match (probe, holds_something) {
        (PathProbe::Missing, _) => DeletePlan::Nothing,
        (_, None) => DeletePlan::Nothing,
        (_, Some(true)) => DeletePlan::Confirm,
        (PathProbe::File, Some(false)) => DeletePlan::RemoveFile,
        (PathProbe::Directory, Some(false)) => DeletePlan::RemoveDirectory,
    }
}

/// Computes the plan for deleting an entry.
pub fn delete_plan(probe: PathProbe, holds_something: Option<bool>) -> (plan: DeletePlan)
    ensures
        plan == delete_plan_spec(probe, holds_something),
{
    match probe {
        PathProbe::Missing => DeletePlan::Nothing,
        PathProbe::File => match holds_something {
            None => DeletePlan::Nothing,
            Some(true) => DeletePlan::Confirm,
            Some(false) => DeletePlan::RemoveFile,
        },
        PathProbe::Directory => match holds_something {
            None => DeletePlan::Nothing,
            Some(true) => DeletePlan::Confirm,
            Some(false) => DeletePlan::RemoveDirectory,
        },
    }
}

/// What an action of the list asks of the disk.
#[derive(Debug, PartialEq, Eq)]
pub enum DiskRequest {
    /// Open the entry: enter it if it is a directory, else hand it to the
    /// program that the desktop has for it.
    Open(String),
    /// Create an empty file of this name in the directory on show.
    CreateFile(String),
    /// Create a directory of this name in the directory on show.
    CreateDirectory(String),
    /// Delete the entry, after asking where it holds something.
    Delete(String),
    /// Give the entry this name, in the directory where it is.
    Rename(String, String),
    /// The action was about the selection only.
    Nothing,
}

/// The mathematical value of a [`DiskRequest`].
pub enum DiskRequestView {
    Open(Seq<char>),
    CreateFile(Seq<char>),
    CreateDirectory(Seq<char>),
    Delete(Seq<char>),
    Rename(Seq<char>, Seq<char>),
    Nothing,
}

impl View for DiskRequest {
    type V = DiskRequestView;

    open spec fn view(&self) -> DiskRequestView {
        match *self {
            DiskRequest::Open(path) => DiskRequestView::Open(path@),
            DiskRequest::CreateFile(name) => DiskRequestView::CreateFile(name@),
            DiskRequest::CreateDirectory(name) => DiskRequestView::CreateDirectory(name@),
            DiskRequest::Delete(path) => DiskRequestView::Delete(path@),
            DiskRequest::Rename(path, name) => DiskRequestView::Rename(path@, name@),
            DiskRequest::Nothing => DiskRequestView::Nothing,
        }
    }
}

/// What an action asks of the disk: nothing where it is about the
/// selection.
pub open spec fn request_of(action: FileListActionView) -> DiskRequestView {
    match action {
        FileListActionView::Open(path) => DiskRequestView::Open(path),
        FileListActionView::Create(item) => match item.kind {
            ItemKind::File => DiskRequestView::CreateFile(item.name),
            ItemKind::Directory => DiskRequestView::CreateDirectory(item.name),
        },
        FileListActionView::Delete(path) => DiskRequestView::Delete(path),
        FileListActionView::Rename(path, name) => DiskRequestView::Rename(path, name),
        FileListActionView::Select(_) => DiskRequestView::Nothing,
        FileListActionView::Deselect(_) => DiskRequestView::Nothing,
    }
}

/// The listing after an action: an action about the selection sets the flag
/// of the entry at its position, and no other action touches the listing.
pub open spec fn listing_after(action: FileListActionView, listing: Seq<FileListItemView>) -> Seq<
    FileListItemView,
> {
    match action {
        FileListActionView::Select(index) => listing.update(
            index as int,
            FileListItemView { path: listing[index as int].path, selected: true },
        ),
        FileListActionView::Deselect(index) => listing.update(
            index as int,
            FileListItemView { path: listing[index as int].path, selected: false },
        ),
        _ => listing,
    }
}

/// Whether an action can be carried out on a listing: an action about the
/// selection has to name a position that the listing has.
pub open spec fn action_fits(action: FileListActionView, listing: Seq<FileListItemView>) -> bool {
    match action {
        FileListActionView::Select(index) => index < listing.len(),
        FileListActionView::Deselect(index) => index < listing.len(),
        _ => true,
    }
}

/// The listing that a directory has when its children are read afresh: one
/// unselected entry for each child, in the order read.
pub open spec fn fresh_listing(entries: Seq<Seq<char>>) -> Seq<FileListItemView> {
    Seq::new(entries.len(), |i: int| fresh_entry(entries[i]))
}

/// The state of the browser: the directory on show, the cached listing of
/// its children, and the dialogs that are open.
pub struct FileExplorer<W: Watcher> {
    pub child_directories: Vec<FileListItem>,
    pub directory: String,
    /// The newest message at the front; the one at the back is on show.
    pub error_dialogs: VecDeque<String>,
    /// The entry whose deletion waits for the user's answer.
    pub delete_dialog: Option<String>,
    pub watcher: W,
    pub file_list: FileListWidget,
    /// Whether the listing has to be read from disk before it is shown.
    pub stale: bool,
}

impl<W: Watcher> FileExplorer<W> {
    /// The cached listing.
    pub open spec fn listing(&self) -> Seq<FileListItemView> {
        self.child_directories.deep_view()
    }

    /// The messages that wait for the user, newest first.
    pub open spec fn errors(&self) -> Seq<Seq<char>> {
        self.error_dialogs.deep_view()
    }

    /// The entry whose deletion waits for the user's answer.
    pub open spec fn pending_delete(&self) -> Option<Seq<char>> {
        match self.delete_dialog {
            Some(path) => Some(path@),
            None => None,
        }
    }

    /// Whether the directory on show is the one that the watch observes.
    pub open spec fn in_step(&self) -> bool {
        self.directory@ == self.watcher.target()
    }

    /// Everything but the listing, the directory and the watch.
    pub open spec fn same_dialogs(&self, other: &Self) -> bool {
        &&& self.errors() == other.errors()
        &&& self.pending_delete() == other.pending_delete()
        &&& self.file_list@ == other.file_list@
    }

    /// A browser on `directory`, which `watcher` observes. Its listing is
    /// empty and waits to be read.
    pub fn new(directory: String, watcher: W) -> (explorer: Self)
        ensures
            explorer.directory@ == directory@,
            explorer.watcher == watcher,
            explorer.listing() == Seq::<FileListItemView>::empty(),
            explorer.errors() == Seq::<Seq<char>>::empty(),
            explorer.pending_delete() is None,
            explorer.stale,
            watcher.target() == directory@ ==> explorer.in_step(),
    {
        FileExplorer {
            child_directories: Vec::new(),
            directory,
            error_dialogs: VecDeque::new(),
            delete_dialog: None,
            watcher,
            file_list: FileListWidget::new(),
            stale: true,
        }
    }

    /// Replaces the listing wholesale by the children just read from disk.
    pub fn refresh_childs(&mut self, entries: Vec<String>)
        ensures
            final(self).listing() == fresh_listing(entries.deep_view()),
            !final(self).stale,
            final(self).directory@ == old(self).directory@,
            final(self).watcher == old(self).watcher,
            final(self).same_dialogs(old(self)),
    {
        let mut entries = entries;
        let ghost read = entries.deep_view();
        self.child_directories.clear();
        let mut taken: usize = 0;
        let total: usize = entries.len();
        while entries.len() > 0
            invariant
                taken + entries.len() == total,
                total == read.len(),
                entries.deep_view() == read.skip(taken as int),
                self.child_directories.deep_view() == fresh_listing(read.take(taken as int)),
                self.directory == old(self).directory,
                self.watcher == old(self).watcher,
                self.error_dialogs == old(self).error_dialogs,
                self.delete_dialog == old(self).delete_dialog,
                self.file_list == old(self).file_list,
            decreases entries.len(),
        {
            let ghost rest = entries.deep_view();
            let ghost listed = self.child_directories.deep_view();
            let path = entries.remove(0);
            self.child_directories.push(FileListItem::new(path));
            proof {
                assert(rest[0] == read[taken as int]);
                assert(rest.skip(1) =~= read.skip(taken + 1));
                assert(listed.push(fresh_entry(path@)) =~= fresh_listing(read.take(taken + 1)));
            }
            taken += 1;
        }
        self.stale = false;
    }

    /// Switches the browser to `path`: the outcome is that of the watch's
    /// own switch, and the watch is left as that switch left it. Only if
    /// it now observes `path` does the browser move there, with an empty
    /// listing that waits to be read. If the watch fails, its message comes
    /// back and the browser is as it was: the same directory, the same
    /// listing, the same watch target, and nothing to be read. Either way
    /// the directory on show stays the one that is watched.
    pub fn change_dir(&mut self, path: String) -> (outcome: Result<(), String>)
        ensures
            final(self).watcher.switched_from(&old(self).watcher, path@, outcome_view(outcome)),
            final(self).same_dialogs(old(self)),
            old(self).in_step() ==> final(self).in_step(),
            match outcome {
                Ok(_) => {
                    &&& final(self).directory@ == path@
                    &&& final(self).watcher.target() == path@
                    &&& final(self).listing() == Seq::<FileListItemView>::empty()
                    &&& final(self).stale
                },
                Err(_) => {
                    &&& final(self).directory@ == old(self).directory@
                    &&& final(self).watcher.target() == old(self).watcher.target()
                    &&& final(self).listing() == old(self).listing()
                    &&& final(self).stale == old(self).stale
                },
            },
    {
        let watched = self.watcher.watch(path.clone());
        self.settle_change_dir(path, watched)
    }

    /// Settles a switch of directory once the watch has answered. Where the
    /// watch now observes `path`, the browser moves there, with an empty
    /// listing that waits to be read. Where the watch failed, its message is
    /// handed on and the browser stays as it was.
    pub fn settle_change_dir(&mut self, path: String, watched: Result<(), String>) -> (outcome:
        Result<(), String>)
        ensures
            final(self).watcher == old(self).watcher,
            final(self).same_dialogs(old(self)),
            match watched {
                Ok(_) => {
                    &&& outcome is Ok
                    &&& final(self).directory@ == path@
                    &&& final(self).listing() == Seq::<FileListItemView>::empty()
                    &&& final(self).stale
                },
                Err(message) => {
                    &&& outcome is Err
                    &&& outcome->Err_0@ == message@
                    &&& final(self).directory@ == old(self).directory@
                    &&& final(self).listing() == old(self).listing()
                    &&& final(self).stale == old(self).stale
                },
            },
    {
        match watched {
            Ok(_) => {
                self.directory = path;
                self.child_directories.clear();
                self.stale = true;
                Ok(())
            },
            Err(message) => Err(message),
        }
    }

    /// Applies what a poll of the watch gave: nothing where it gave no
    /// change; else the change goes to the listing, and after `Unknown` the
    /// listing waits to be read.
    pub fn apply_polled(&mut self, polled: Option<Change>) -> (relist: bool)
        ensures
            final(self).listing() == match polled {
                Some(change) => apply_spec(change@, old(self).listing()),
                None => old(self).listing(),
            },
            relist == (polled is Some && polled->0@ is Unknown),
            final(self).stale == (old(self).stale || relist),
            final(self).directory@ == old(self).directory@,
            final(self).watcher == old(self).watcher,
            final(self).same_dialogs(old(self)),
    {
        match polled {
            Some(change) => {
                let relist = apply(change, &mut self.child_directories);
                if relist {
                    self.stale = true;
                }
                relist
            },
            None => false,
        }
    }

    /// One tick of the consumer: polls the watch once, without waiting, and
    /// applies what the poll gave as [`FileExplorer::apply_polled`] does.
    /// The watch is left as the poll left it; changes that are still queued
    /// wait for later ticks.
    pub fn poll_one_change(&mut self) -> (relist: bool)
        ensures
            final(self).directory@ == old(self).directory@,
            final(self).watcher.target() == old(self).watcher.target(),
            old(self).in_step() ==> final(self).in_step(),
            final(self).same_dialogs(old(self)),
            final(self).stale == (old(self).stale || relist),
            exists|polled: Option<ChangeView>|
                {
                    &&& #[trigger] final(self).watcher.polled_from(&old(self).watcher, polled)
                    &&& final(self).listing() == match polled {
                        Some(change) => apply_spec(change, old(self).listing()),
                        None => old(self).listing(),
                    }
                    &&& relist == (polled == Some(ChangeView::Unknown))
                },
    {
        let polled = self.watcher.look_for_changes();
        let ghost before = self.listing();
        let relist = self.apply_polled(polled);
        proof {
            assert(before == old(self).listing());
            assert(self.watcher.polled_from(&old(self).watcher, polled_view(polled)));
        }
        relist
    }

    /// Marks or unmarks the entry at `index` as selected.
    pub fn set_selected(&mut self, index: usize, selected: bool)
        requires
            index < old(self).listing().len(),
        ensures
            final(self).listing() == old(self).listing().update(
                index as int,
                FileListItemView { path: old(self).listing()[index as int].path, selected },
            ),
            final(self).directory@ == old(self).directory@,
            final(self).watcher == old(self).watcher,
            final(self).stale == old(self).stale,
            final(self).same_dialogs(old(self)),
    {
        self.child_directories[index].selected = selected;
    }

    /// Carries out what an action of the list asks of the browser itself,
    /// which is the selection, and hands back what it asks of the disk.
    pub fn handle_action(&mut self, action: FileListAction) -> (request: DiskRequest)
        requires
            action_fits(action@, old(self).listing()),
        ensures
            request@ == request_of(action@),
            final(self).listing() == listing_after(action@, old(self).listing()),
            final(self).directory@ == old(self).directory@,
            final(self).watcher == old(self).watcher,
            final(self).stale == old(self).stale,
            final(self).same_dialogs(old(self)),
    {
        match action {
            FileListAction::Open(path) => DiskRequest::Open(path),
            FileListAction::Create(item) => match item.kind {
                ItemKind::File => DiskRequest::CreateFile(item.name),
                ItemKind::Directory => DiskRequest::CreateDirectory(item.name),
            },
            FileListAction::Delete(path) => DiskRequest::Delete(path),
            FileListAction::Rename(path, name) => DiskRequest::Rename(path, name),
            FileListAction::Select(index) => {
                self.set_selected(index, true);
                DiskRequest::Nothing
            },
            FileListAction::Deselect(index) => {
                self.set_selected(index, false);
                DiskRequest::Nothing
            },
        }
    }

    /// Queues a message for the user, in front of those that wait.
    pub fn report_error(&mut self, message: String)
        ensures
            final(self).errors() == seq![message@] + old(self).errors(),
            final(self).listing() == old(self).listing(),
            final(self).directory@ == old(self).directory@,
            final(self).watcher == old(self).watcher,
            final(self).stale == old(self).stale,
            final(self).pending_delete() == old(self).pending_delete(),
            final(self).file_list@ == old(self).file_list@,
    {
        self.error_dialogs.push_front(message);
    }

    /// The message on show: the oldest that waits.
    pub fn current_error(&self) -> (message: Option<&String>)
        ensures
            match message {
                Some(text) => self.errors().len() > 0 && text@ == self.errors().last(),
                None => self.errors().len() == 0,
            },
    {
        let waiting = self.error_dialogs.len();
        if waiting > 0 {
            Some(&self.error_dialogs[waiting - 1])
        } else {
            None
        }
    }

    /// Closes the message on show, if there is one.
    pub fn dismiss_error(&mut self)
        ensures
            final(self).errors() == if old(self).errors().len() > 0 {
                old(self).errors().drop_last()
            } else {
                old(self).errors()
            },
            final(self).listing() == old(self).listing(),
            final(self).directory@ == old(self).directory@,
            final(self).watcher == old(self).watcher,
            final(self).stale == old(self).stale,
            final(self).pending_delete() == old(self).pending_delete(),
            final(self).file_list@ == old(self).file_list@,
    {
        let _ = self.error_dialogs.pop_back();
    }

    /// Closes the dialog that asks about a deletion, and hands back the
    /// entry that it asked about, if it was open.
    pub fn close_delete_dialog(&mut self) -> (asked: Option<String>)
        ensures
            final(self).pending_delete() is None,
            match asked {
                Some(path) => old(self).pending_delete() == Some(path@),
                None => old(self).pending_delete() is None,
            },
            final(self).listing() == old(self).listing(),
            final(self).directory@ == old(self).directory@,
            final(self).watcher == old(self).watcher,
            final(self).stale == old(self).stale,
            final(self).errors() == old(self).errors(),
            final(self).file_list@ == old(self).file_list@,
    {
        self.delete_dialog.take()
    }

    /// Decides what to do about an entry that the user wants deleted, and
    /// opens the dialog where the user has to be asked first.
    pub fn try_delete_item(&mut self, path: String, probe: PathProbe, holds_something: Option<bool>) -> (plan:
        DeletePlan)
        ensures
            plan == delete_plan_spec(probe, holds_something),
            final(self).pending_delete() == if plan == DeletePlan::Confirm {
                Some(path@)
            } else {
                old(self).pending_delete()
            },
            final(self).listing() == old(self).listing(),
            final(self).directory@ == old(self).directory@,
            final(self).watcher == old(self).watcher,
            final(self).stale == old(self).stale,
            final(self).errors() == old(self).errors(),
            final(self).file_list@ == old(self).file_list@,
    {
        let plan = delete_plan(probe, holds_something);
        if plan == DeletePlan::Confirm {
            self.delete_dialog = Some(path);
        }
        plan
    }
}

/// What to remove once the user has answered the question about an entry,
/// given what the disk says of the entry now.
pub fn confirmed_removal(agreed: bool, probe: PathProbe) -> (removal: Removal)
    ensures
        removal == if !agreed {
            Removal::Nothing
        } else {
            match probe {
                PathProbe::File => Removal::File,
                PathProbe::Directory => Removal::DirectoryTree,
                PathProbe::Missing => Removal::Nothing,
            }
        },
{
    if !agreed {
        Removal::Nothing
    } else {
        match probe {
            PathProbe::File => Removal::File,
            PathProbe::Directory => Removal::DirectoryTree,
            PathProbe::Missing => Removal::Nothing,
        }
    }
}

} // verus!
