//! The entries of the cached listing, and what the list widget asks of its
//! owner.
use vstd::prelude::*;
use crate::disk::path_is_dir;

verus! {

/// Whether an entry is a plain file or a directory.
#[derive(Debug, Clone, Copy, PartialEq, Eq, Structural)]
pub enum ItemKind {
    File,
    Directory,
}

impl ItemKind {
    /// The kind that the disk's answer to "is it a directory?" stands for:
    /// whatever is no directory counts as a file.
    pub fn from_is_dir(is_dir: bool) -> (kind: ItemKind)
        ensures
            kind == if is_dir {
                ItemKind::Directory
            } else {
                ItemKind::File
            },
    {
        if is_dir {
            ItemKind::Directory
        } else {
            ItemKind::File
        }
    }

    /// Asks the disk whether `path` is a directory right now, and answers
    /// as [`ItemKind::from_is_dir`] does for what the disk said.
    pub fn from_path(path: &String) -> ItemKind {
        ItemKind::from_is_dir(path_is_dir(path))
    }
}

/// An entry that the user is about to create: its kind and the name typed
/// so far.
#[derive(Debug, PartialEq, Eq)]
pub struct NewItem {
    pub kind: ItemKind,
    pub name: String,
}

/// The mathematical value of a [`NewItem`].
pub struct NewItemView {
    pub kind: ItemKind,
    pub name: Seq<char>,
}

impl View for NewItem {
    type V = NewItemView;

    open spec fn view(&self) -> NewItemView {
        NewItemView { kind: self.kind, name: self.name@ }
    }
}

/// What the list asks its owner to do.
#[derive(Debug, PartialEq, Eq)]
pub enum FileListAction {
    Open(String),
    Create(NewItem),
    Delete(String),
    /// The path of the entry, then its new name.
    Rename(String, String),
    /// By position in the listing.
    Select(usize),
    /// By position in the listing.
    Deselect(usize),
}

/// One child of the watched directory, as cached.
#[derive(Debug, PartialEq, Eq)]
pub struct FileListItem {
    pub path: String,
    pub selected: bool,
}

/// The mathematical value of a [`FileListItem`].
pub struct FileListItemView {
    pub path: Seq<char>,
    pub selected: bool,
}

impl View for FileListItem {
    type V = FileListItemView;

    open spec fn view(&self) -> FileListItemView {
        FileListItemView { path: self.path@, selected: self.selected }
    }
}

impl DeepView for FileListItem {
    type V = FileListItemView;

    open spec fn deep_view(&self) -> FileListItemView {
        self.view()
    }
}

/// The entry that a path is listed as when it is first seen: not selected.
pub open spec fn fresh_entry(path: Seq<char>) -> FileListItemView {
    FileListItemView { path, selected: false }
}

impl FileListItem {
    /// The entry for a path that was just seen.
    pub fn new(path: String) -> (item: Self)
        ensures
            item@ == fresh_entry(path@),
    {
        FileListItem { path, selected: false }
    }
}

/// What the list widget remembers between two frames: the entry that is
/// being typed in, if any, and whether a rename was asked for.
#[derive(Debug, PartialEq, Eq)]
pub struct FileListWidget {
    new_item: Option<NewItem>,
    rename_request: bool,
}

/// The mathematical value of a [`FileListWidget`].
pub struct FileListWidgetView {
    pub new_item: Option<NewItemView>,
    pub rename_request: bool,
}

impl View for FileListWidget {
    type V = FileListWidgetView;

    closed spec fn view(&self) -> FileListWidgetView {
        FileListWidgetView {
            new_item: match self.new_item {
                Some(item) => Some(item@),
                None => None,
            },
            rename_request: self.rename_request,
        }
    }
}

impl FileListWidget {
    /// A widget with no entry being typed in and no rename asked for.
    pub fn new() -> (widget: Self)
        ensures
            widget@.new_item is None,
            !widget@.rename_request,
    {
        FileListWidget { new_item: None, rename_request: false }
    }

    /// Starts typing in a new entry of the given kind, with an empty name.
    /// An entry that was being typed in is given up.
    pub fn new_item(&mut self, item_kind: ItemKind)
        ensures
            final(self)@.new_item == Some(
                NewItemView { kind: item_kind, name: Seq::<char>::empty() },
            ),
            final(self)@.rename_request == old(self)@.rename_request,
    {
        self.new_item = Some(NewItem { kind: item_kind, name: String::new() });
    }

    /// Asks for the selected entry to be renamed in the next frame.
    pub fn request_rename(&mut self)
        ensures
            final(self)@.rename_request,
            final(self)@.new_item == old(self)@.new_item,
    {
        self.rename_request = true;
    }

    /// Says whether a rename was asked for, and forgets the request.
    pub fn take_rename_request(&mut self) -> (renaming: bool)
        ensures
            renaming == old(self)@.rename_request,
            !final(self)@.rename_request,
            final(self)@.new_item == old(self)@.new_item,
    {
        let renaming = self.rename_request;
        self.rename_request = false;
        renaming
    }

    /// The number of rows to lay out: one for each entry, and one more
    /// while a new entry is being typed in.
    pub fn total_rows(&self, items: usize) -> (rows: usize)
        requires
            items < usize::MAX,
        ensures
            rows == items + if self@.new_item is Some {
                1int
            } else {
                0int
            },
    {
        if self.new_item.is_some() {
            items + 1
        } else {
            items
        }
    }

    /// Hands out the entry that is being typed in, for one frame.
    pub fn take_new_item(&mut self) -> (item: Option<NewItem>)
        ensures
            final(self)@.new_item is None,
            final(self)@.rename_request == old(self)@.rename_request,
            match item {
                Some(item) => old(self)@.new_item == Some(item@),
                None => old(self)@.new_item is None,
            },
    {
        self.new_item.take()
    }

    /// Settles the entry that was typed in during a frame. While the input
    /// keeps the focus the entry is kept for the next frame. Once the focus
    /// is lost the entry is gone: it is asked to be created if it has a
    /// name and escape was not pressed, and dropped otherwise.
    pub fn settle_new_item(&mut self, item: NewItem, lost_focus: bool, escape_pressed: bool) -> (action:
        Option<FileListAction>)
        ensures
            final(self)@.rename_request == old(self)@.rename_request,
            final(self)@.new_item == if lost_focus {
                None
            } else {
                Some(item@)
            },
            action is Some <==> lost_focus && item@.name.len() > 0 && !escape_pressed,
            action is Some ==> action->0@ == FileListActionView::Create(item@),
    {
        if lost_focus {
            self.new_item = None;
            if !item.name.as_str().is_empty() && !escape_pressed {
                Some(FileListAction::Create(item))
            } else {
                None
            }
        } else {
            self.new_item = Some(item);
            None
        }
    }
}

/// The mathematical value of a [`FileListAction`].
pub enum FileListActionView {
    Open(Seq<char>),
    Create(NewItemView),
    Delete(Seq<char>),
    Rename(Seq<char>, Seq<char>),
    Select(usize),
    Deselect(usize),
}

impl View for FileListAction {
    type V = FileListActionView;

    open spec fn view(&self) -> FileListActionView {
        match *self {
            FileListAction::Open(path) => FileListActionView::Open(path@),
            FileListAction::Create(item) => FileListActionView::Create(item@),
            FileListAction::Delete(path) => FileListActionView::Delete(path@),
            FileListAction::Rename(path, name) => FileListActionView::Rename(path@, name@),
            FileListAction::Select(index) => FileListActionView::Select(index),
            FileListAction::Deselect(index) => FileListActionView::Deselect(index),
        }
    }
}

/// What a press on the row of an entry asks for: a double click opens the
/// entry; any other press on the row selects it, while the list is enabled.
pub fn press_action(
    index: usize,
    path: &String,
    double_clicked: bool,
    pressed_on_row: bool,
    enabled: bool,
) -> (action: Option<FileListAction>)
    ensures
        match action {
            Some(action) => {
                if double_clicked {
                    action@ == FileListActionView::Open(path@)
                } else {
                    pressed_on_row && enabled && action@ == FileListActionView::Select(index)
                }
            },
            None => !double_clicked && !(pressed_on_row && enabled),
        },
{
    if double_clicked {
        Some(FileListAction::Open(path.clone()))
    } else if pressed_on_row && enabled {
        Some(FileListAction::Select(index))
    } else {
        None
    }
}

/// Whether a press takes the selection off an entry: it does where the
/// entry is selected, the press fell outside its row and outside its
/// context menu, and the list is enabled.
pub fn release_action(
    index: usize,
    selected: bool,
    pressed_outside: bool,
    context_menu_clicked: bool,
    enabled: bool,
) -> (action: Option<FileListAction>)
    ensures
        action is Some <==> selected && pressed_outside && !context_menu_clicked && enabled,
        action is Some ==> action->0@ == FileListActionView::Deselect(index),
{
    if selected && pressed_outside && !context_menu_clicked && enabled {
        Some(FileListAction::Deselect(index))
    } else {
        None
    }
}

} // verus!
