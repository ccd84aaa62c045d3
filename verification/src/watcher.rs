//! The watch on the current directory: the backend that observes it, the
//! channel that carries its changes to the consumer, and the switch from
//! one directory to another.
use vstd::prelude::*;
use vstd::string::StringExecFns;
use notify::event::{DataChange, ModifyKind, RenameMode};
use notify::EventKind;
use std::path::PathBuf;
use std::collections::VecDeque;
use std::sync::mpsc::{Receiver, Sender};
pub use crate::change::{Change, CreateKind};
use crate::change::ChangeView;
use crate::classifier::{
    classify, classify_spec, needs_probe, PathProbe, RawEvent, RawEventKind, RawEventView,
    RenamePairingState,
};

verus! {

/// `notify::RecommendedWatcher`, the backend of the platform; opaque here.
#[verifier::external_type_specification]
#[verifier::external_body]
pub struct ExBackendWatcher(notify::RecommendedWatcher);

/// `notify::Event`, one notification of the backend; opaque here.
#[verifier::external_type_specification]
#[verifier::external_body]
pub struct ExBackendEvent(notify::Event);

/// `notify::Error`, a failure of the backend; opaque here.
#[verifier::external_type_specification]
#[verifier::external_body]
pub struct ExBackendError(notify::Error);

/// `std::path::PathBuf`, in which the backend hands out paths; opaque here.
#[verifier::external_type_specification]
#[verifier::external_body]
pub struct ExPathBuf(std::path::PathBuf);

/// `std::sync::mpsc::Sender`, the producer's end of the queue; opaque here.
#[verifier::external_type_specification]
#[verifier::external_body]
#[verifier::reject_recursive_types(T)]
pub struct ExSender<T>(std::sync::mpsc::Sender<T>);

/// `std::sync::mpsc::Receiver`, the consumer's end of the queue; opaque here.
#[verifier::external_type_specification]
#[verifier::external_body]
#[verifier::reject_recursive_types(T)]
pub struct ExReceiver<T>(std::sync::mpsc::Receiver<T>);

/// Why the backend would not observe a path.
#[derive(Debug, PartialEq, Eq)]
pub enum WatchError {
    /// The backend's own message.
    Generic(String),
    /// An I/O error, in words.
    Io(String),
    /// Any other failure inside the backend, as the backend prints it.
    Internal(String),
}

/// The mathematical value of a [`WatchError`].
pub enum WatchErrorView {
    Generic(Seq<char>),
    Io(Seq<char>),
    Internal(Seq<char>),
}

impl View for WatchError {
    type V = WatchErrorView;

    open spec fn view(&self) -> WatchErrorView {
        match *self {
            WatchError::Generic(message) => WatchErrorView::Generic(message@),
            WatchError::Io(message) => WatchErrorView::Io(message@),
            WatchError::Internal(detail) => WatchErrorView::Internal(detail@),
        }
    }
}

/// The text that the user is shown for a failure to watch.
pub open spec fn error_text(error: WatchErrorView) -> Seq<char> {
    match error {
        WatchErrorView::Generic(message) => message,
        WatchErrorView::Io(message) => message,
        WatchErrorView::Internal(detail) => "Internal error "@ + detail,
    }
}

impl WatchError {
    /// The failure as a line of text.
    pub fn message(self) -> (text: String)
        ensures
            text@ == error_text(self@),
    {
        match self {
            WatchError::Generic(message) => message,
            WatchError::Io(message) => message,
            WatchError::Internal(detail) => {
                String::from_str("Internal error ").concat(detail.as_str())
            },
        }
    }
}

/// The outcome of a switch with its message as a sequence of characters.
pub open spec fn outcome_view(outcome: Result<(), String>) -> Result<(), Seq<char>> {
    match outcome {
        Ok(_) => Ok(()),
        Err(message) => Err(message@),
    }
}

/// What a poll gave, as its mathematical value.
pub open spec fn polled_view(polled: Option<Change>) -> Option<ChangeView> {
    match polled {
        Some(change) => Some(change@),
        None => None,
    }
}

/// Anything that can observe one directory at a time and hand out the
/// changes it saw there.
pub trait Watcher {
    /// The path that is being observed.
    spec fn target(&self) -> Seq<char>;

    /// What this kind of watch says of a switch: whether a call of `watch`
    /// with `path` can take the watch from `before` to `self` and return
    /// `outcome`.
    spec fn switched_from(
        &self,
        before: &Self,
        path: Seq<char>,
        outcome: Result<(), Seq<char>>,
    ) -> bool;

    /// What this kind of watch says of a poll: whether a call of
    /// `look_for_changes` can take the watch from `before` to `self` and
    /// return `polled`.
    spec fn polled_from(&self, before: &Self, polled: Option<ChangeView>) -> bool;

    /// Switches to `path`. On failure the target is the one it was.
    fn watch(&mut self, path: String) -> (outcome: Result<(), String>)
        ensures
            outcome is Ok ==> final(self).target() == path@,
            outcome is Err ==> final(self).target() == old(self).target(),
            final(self).switched_from(old(self), path@, outcome_view(outcome)),
    ;

    /// Takes the oldest change that has not been handed out yet, if there is
    /// one, without waiting. The target stays what it is.
    fn look_for_changes(&mut self) -> (change: Option<Change>)
        ensures
            final(self).target() == old(self).target(),
            final(self).polled_from(old(self), polled_view(change)),
    ;
}

/// Settles a switch of target once the backend has answered: the target
/// moves to `path` only if the backend now observes it, and a failure is
/// handed on as its text.
pub fn settle_retarget(current: &mut String, path: String, started: Result<(), WatchError>) -> (outcome:
    Result<(), String>)
    ensures
        match started {
            Ok(_) => outcome is Ok && final(current)@ == path@,
            Err(error) => {
                &&& outcome is Err
                &&& outcome->Err_0@ == error_text(error@)
                &&& final(current)@ == old(current)@
            },
        },
{
    match started {
        Ok(_) => {
            *current = path;
            Ok(())
        },
        Err(error) => Err(error.message()),
    }
}

/// Whether `notify::Event::need_rescan` holds of an event.
pub uninterp spec fn event_flagged(event: notify::Event) -> bool;

/// What `backend_rename_kind` reads in the field `kind` of an event.
pub uninterp spec fn rename_reading(event: notify::Event) -> Option<RawEventKind>;

/// What `backend_modify_kind` reads in the field `kind` of an event.
pub uninterp spec fn modify_reading(event: notify::Event) -> Option<RawEventKind>;

/// What `backend_plain_kind` reads in the field `kind` of an event.
pub uninterp spec fn plain_reading(event: notify::Event) -> RawEventKind;

/// The field `paths` of an event, in its order.
pub uninterp spec fn event_paths(event: notify::Event) -> Seq<PathBuf>;

/// The text that `std::path::Path::to_string_lossy` gives for a path.
pub uninterp spec fn lossy_text(path: PathBuf) -> Seq<char>;

/// An event of the backend read as a raw notification: its kind is the
/// first reading there is, its paths are the texts of the event's paths in
/// their order, and it needs a rescan exactly where the backend flagged it.
/// Two paths that are no valid Unicode can have the same text.
pub open spec fn event_reading(event: notify::Event) -> RawEventView {
    RawEventView {
        kind: first_reading(rename_reading(event), modify_reading(event), plain_reading(event)),
        paths: Seq::new(event_paths(event).len(), |i: int| lossy_text(event_paths(event)[i])),
        need_rescan: event_flagged(event),
    }
}

/// `notify::Event::need_rescan`: whether the backend flagged the event as one
/// after which events may have been missed. The answer depends on the event
/// alone.
pub assume_specification[ notify::Event::need_rescan ](event: &notify::Event) -> (flagged: bool)
    ensures
        flagged == event_flagged(*event),
;

/// Reads the field `kind` of a `notify::Event` and, where it is one half of
/// a rename or a rename in one piece, names which. Any other kind of event
/// gives `None`.
#[verifier::external_body]
fn backend_rename_kind(event: &notify::Event) -> (kind: Option<RawEventKind>)
    ensures
        kind == rename_reading(*event),
{
    match event.kind {
        EventKind::Modify(ModifyKind::Name(RenameMode::From)) => Some(RawEventKind::RenameFrom),
        EventKind::Modify(ModifyKind::Name(RenameMode::To)) => Some(RawEventKind::RenameTo),
        EventKind::Modify(ModifyKind::Name(RenameMode::Both)) => Some(RawEventKind::RenameBoth),
        EventKind::Modify(ModifyKind::Name(_)) => Some(RawEventKind::RenameOther),
        _ => None,
    }
}

/// Reads the field `kind` of a `notify::Event` and, where it is a
/// modification other than of the name, names its variant: of data (a change
/// of size apart), of metadata, unspecified, or other. Any other kind of
/// event gives `None`.
#[verifier::external_body]
fn backend_modify_kind(event: &notify::Event) -> (kind: Option<RawEventKind>)
    ensures
        kind == modify_reading(*event),
{
    match event.kind {
        EventKind::Modify(ModifyKind::Any) => Some(RawEventKind::ModifyAny),
        EventKind::Modify(ModifyKind::Data(DataChange::Size)) => Some(RawEventKind::ModifySize),
        EventKind::Modify(ModifyKind::Data(_)) => Some(RawEventKind::ModifyData),
        EventKind::Modify(ModifyKind::Metadata(_)) => Some(RawEventKind::ModifyMetadata),
        EventKind::Modify(ModifyKind::Other) => Some(RawEventKind::ModifyOther),
        _ => None,
    }
}

/// Reads the field `kind` of a `notify::Event` and names its variant where
/// it is no modification: unspecified, an access, a creation (of a file, of
/// a folder, or left open), a removal. Everything else is `Other`.
#[verifier::external_body]
fn backend_plain_kind(event: &notify::Event) -> (kind: RawEventKind)
    ensures
        kind == plain_reading(*event),
{
    match event.kind {
        EventKind::Any => RawEventKind::Any,
        EventKind::Access(_) => RawEventKind::Access,
        EventKind::Create(notify::event::CreateKind::File) => RawEventKind::CreateFile,
        EventKind::Create(notify::event::CreateKind::Folder) => RawEventKind::CreateFolder,
        EventKind::Create(_) => RawEventKind::CreateAny,
        EventKind::Remove(_) => RawEventKind::Remove,
        _ => RawEventKind::Other,
    }
}

/// Takes the field `paths` out of a `notify::Event`, as it stands.
#[verifier::external_body]
fn backend_paths(event: notify::Event) -> (paths: Vec<PathBuf>)
    ensures
        paths@ == event_paths(event),
{
    event.paths
}

/// `std::path::Path::to_string_lossy`: the path as text, with a replacement
/// character wherever it is no valid Unicode. The text depends on the path
/// alone; what it is, is not claimed.
#[verifier::external_body]
fn path_text(path: &PathBuf) -> (text: String)
    ensures
        text@ == lossy_text(*path),
{
    path.to_string_lossy().into_owned()
}

/// `std::sync::mpsc::channel`: the two ends of a new queue without bound.
#[verifier::external_body]
fn open_channel() -> (ends: (Sender<Change>, Receiver<Change>)) {
    std::sync::mpsc::channel()
}

/// `std::sync::mpsc::Sender::send`: queues the change; `false` where the
/// receiving end is gone.
#[verifier::external_body]
fn send_change(sender: &Sender<Change>, change: Change) -> (sent: bool) {
    sender.send(change).is_ok()
}

/// `std::sync::mpsc::Receiver::try_recv`: the oldest queued change, or `None`
/// where the queue is empty or the sending end is gone. It does not wait.
#[verifier::external_body]
fn try_take(receiver: &Receiver<Change>) -> (change: Option<Change>) {
    receiver.try_recv().ok()
}

/// `notify::recommended_watcher`: makes the platform's backend, which from
/// then on hands every notification, on a thread of its own, to [`deliver`]
/// together with the pairing state given here. Nothing is claimed of the
/// outcome.
#[verifier::external_body]
fn start_backend<F>(sender: Sender<Change>, pairing: RenamePairingState, on_change: F) -> (started:
    Result<notify::RecommendedWatcher, notify::Error>) where F: Fn() + Send + 'static
    requires
        on_change.requires(()),
{
    let mut pairing = pairing;
    notify::recommended_watcher(
        move |event: Result<notify::Event, notify::Error>| {
            deliver(event, &mut pairing, &sender, &on_change)
        },
    )
}

/// `notify::Watcher::unwatch` on the platform's backend: stops observing
/// `path`. Whether it succeeded is not looked at.
#[verifier::external_body]
fn backend_unwatch(watcher: &mut notify::RecommendedWatcher, path: &String) {
    let _ = notify::Watcher::unwatch(watcher, std::path::Path::new(path));
}

/// `notify::Watcher::watch` on the platform's backend: starts observing
/// `path` itself, not what lies below its children. Nothing is claimed of
/// the outcome.
#[verifier::external_body]
fn backend_watch(watcher: &mut notify::RecommendedWatcher, path: &String) -> (started: Result<
    (),
    notify::Error,
>) {
    notify::Watcher::watch(watcher, std::path::Path::new(path), notify::RecursiveMode::NonRecursive)
}

/// Reads the field `kind` of a `notify::Error` and sorts it: the message of
/// a generic error, an I/O error as `std::io::Error` prints it, and any
/// other kind as its `Debug` form. Nothing is claimed of the texts.
#[verifier::external_body]
fn backend_error(error: notify::Error) -> (sorted: WatchError) {
    match error.kind {
        notify::ErrorKind::Generic(message) => WatchError::Generic(message),
        notify::ErrorKind::Io(error) => WatchError::Io(error.to_string()),
        other => WatchError::Internal(format!("{:?}", other)),
    }
}

/// The kind of an event from the three readings of it: the reading as a
/// rename where there is one, else the reading as another modification
/// where there is one, else the plain reading.
pub open spec fn first_reading(
    rename: Option<RawEventKind>,
    modify: Option<RawEventKind>,
    plain: RawEventKind,
) -> RawEventKind {
    match rename {
        Some(kind) => kind,
        None => match modify {
            Some(kind) => kind,
            None => plain,
        },
    }
}

/// Settles the kind of an event from the three readings of it.
pub fn settle_kind(
    rename: Option<RawEventKind>,
    modify: Option<RawEventKind>,
    plain: RawEventKind,
) -> (kind: RawEventKind)
    ensures
        kind == first_reading(rename, modify, plain),
{
    match rename {
        Some(kind) => kind,
        None => match modify {
            Some(kind) => kind,
            None => plain,
        },
    }
}

/// The kind of a backend event, as classification tells kinds apart: the
/// event is read three ways and [`settle_kind`] picks among the readings.
fn backend_kind(event: &notify::Event) -> (kind: RawEventKind)
    ensures
        kind == event_reading(*event).kind,
{
    let rename = backend_rename_kind(event);
    let modify = backend_modify_kind(event);
    let plain = backend_plain_kind(event);
    settle_kind(rename, modify, plain)
}

/// The backend's event as a raw notification: its kind, its rescan flag,
/// and its paths as text, in their order.
pub fn raw_event(event: notify::Event) -> (raw: RawEvent)
    ensures
        raw@ == event_reading(event),
{
    let kind = backend_kind(&event);
    let need_rescan = event.need_rescan();
    let backend_paths = backend_paths(event);
    let mut paths: Vec<String> = Vec::new();
    let mut i: usize = 0;
    while i < backend_paths.len()
        invariant
            i <= backend_paths.len(),
            paths@.len() == i,
            forall|j: int| 0 <= j < i ==> (#[trigger] paths@[j])@ == lossy_text(backend_paths@[j]),
        decreases backend_paths.len() - i,
    {
        paths.push(path_text(&backend_paths[i]));
        i += 1;
    }
    assert(paths.deep_view() =~= event_reading(event).paths);
    RawEvent { kind, paths, need_rescan }
}

/// Classifies one event of the backend: the event is read as a raw
/// notification, as [`event_reading`] says, and then goes through
/// [`classify`]. What comes out and what becomes of the pairing state is
/// what the classification rules give for that notification: for some
/// answers of the disk where a creation of open kind made it look there,
/// and by the rules alone otherwise.
pub fn get_notify_changes(event: notify::Event, expect_rename_to: &mut RenamePairingState) -> (changes:
    Vec<Change>)
    ensures
        exists|probes: Seq<PathProbe>|
            {
                &&& probes.len() == event_reading(event).paths.len()
                &&& changes.deep_view() == (#[trigger] classify_spec(
                    event_reading(event),
                    probes,
                    old(expect_rename_to)@,
                )).changes
                &&& final(expect_rename_to)@ == classify_spec(
                    event_reading(event),
                    probes,
                    old(expect_rename_to)@,
                ).pending
            },
        !needs_probe(event_reading(event)) ==> {
            &&& changes.deep_view() == classify_spec(
                event_reading(event),
                Seq::empty(),
                old(expect_rename_to)@,
            ).changes
            &&& final(expect_rename_to)@ == classify_spec(
                event_reading(event),
                Seq::empty(),
                old(expect_rename_to)@,
            ).pending
        },
{
    let raw = raw_event(event);
    classify(raw, expect_rename_to)
}

/// Handles one delivery of the backend on the backend's thread: an event is
/// classified and each change it brings is queued, in order, with a call of
/// `on_change` after each one that was queued; a delivery that failed is
/// dropped and leaves the pairing state as it is.
pub fn deliver<F: Fn()>(
    event: Result<notify::Event, notify::Error>,
    pairing: &mut RenamePairingState,
    sender: &Sender<Change>,
    on_change: &F,
)
    requires
        on_change.requires(()),
    ensures
        event is Err ==> final(pairing)@ == old(pairing)@,
        event is Ok ==> exists|probes: Seq<PathProbe>|
            final(pairing)@ == (#[trigger] classify_spec(
                event_reading(event->Ok_0),
                probes,
                old(pairing)@,
            )).pending,
{
    match event {
        Ok(event) => {
            let mut changes = get_notify_changes(event, pairing);
            while changes.len() > 0
                invariant
                    on_change.requires(()),
                decreases changes.len(),
            {
                let change = changes.remove(0);
                if send_change(sender, change) {
                    on_change();
                }
            }
        },
        Err(_) => {},
    }
}

/// The watch on one directory, by the platform's backend.
pub struct FileSystemWatcher {
    children_watcher: notify::RecommendedWatcher,
    receiver: Receiver<Change>,
    current_path: String,
}

impl FileSystemWatcher {
    /// Starts the backend and observes `path`. `on_change` is called, on
    /// the backend's thread, after each change that was queued. Where the
    /// backend cannot be started or will not observe `path`, the failure
    /// comes back as text.
    pub fn new<F>(path: String, on_change: F) -> (made: Result<Self, String>) where
        F: Fn() + Send + 'static,

        requires
            on_change.requires(()),
        ensures
            made is Ok ==> made->Ok_0.target() == path@,
    {
        let (sender, receiver) = open_channel();
        match start_backend(sender, RenamePairingState::new(), on_change) {
            Ok(mut children_watcher) => match backend_watch(&mut children_watcher, &path) {
                Ok(_) => Ok(FileSystemWatcher { children_watcher, receiver, current_path: path }),
                Err(error) => Err(backend_error(error).message()),
            },
            Err(error) => Err(backend_error(error).message()),
        }
    }

    /// The path that is being observed.
    pub fn current_path(&self) -> (path: &String)
        ensures
            path@ == self.target(),
    {
        &self.current_path
    }
}

impl Watcher for FileSystemWatcher {
    closed spec fn target(&self) -> Seq<char> {
        self.current_path@
    }

    /// The backend decides whether a switch succeeds: all that is known is
    /// where the target stands afterwards.
    open spec fn switched_from(
        &self,
        before: &Self,
        path: Seq<char>,
        outcome: Result<(), Seq<char>>,
    ) -> bool {
        match outcome {
            Ok(_) => self.target() == path,
            Err(_) => self.target() == before.target(),
        }
    }

    /// The backend's thread decides what waits in the queue: all that is
    /// known is that a poll leaves the target alone.
    open spec fn polled_from(&self, before: &Self, polled: Option<ChangeView>) -> bool {
        self.target() == before.target()
    }

    /// Stops observing the current target, whether or not that succeeds,
    /// then asks the backend for `path`. Where the backend refuses `path`,
    /// it is asked for the old target again, so that a failed switch does
    /// not leave nothing watched. See [`settle_retarget`] for what follows
    /// from the backend's answer to `path`.
    fn watch(&mut self, path: String) -> (outcome: Result<(), String>) {
        backend_unwatch(&mut self.children_watcher, &self.current_path);
        let started = match backend_watch(&mut self.children_watcher, &path) {
            Ok(_) => Ok(()),
            Err(error) => {
                let _restored = backend_watch(&mut self.children_watcher, &self.current_path);
                Err(backend_error(error))
            },
        };
        settle_retarget(&mut self.current_path, path, started)
    }

    fn look_for_changes(&mut self) -> (change: Option<Change>) {
        try_take(&self.receiver)
    }
}

/// A watch without a backend, for driving a consumer by hand: it hands out
/// the changes that were put into it, oldest first, and refuses the paths
/// that it was told to refuse.
pub struct ScriptedWatcher {
    queue: VecDeque<Change>,
    current_path: String,
    refused: Vec<String>,
}

impl ScriptedWatcher {
    /// Whether a switch to `path` is refused.
    pub closed spec fn refuses(&self, path: Seq<char>) -> bool {
        exists|i: int| 0 <= i < self.refused@.len() && (#[trigger] self.refused@[i])@ == path
    }

    /// The changes that wait to be handed out, oldest first.
    pub closed spec fn queued(&self) -> Seq<ChangeView> {
        self.queue.deep_view()
    }

    /// A watch on `path` that refuses nothing and has no change to hand out.
    pub fn new(path: String) -> (watcher: Self)
        ensures
            watcher.target() == path@,
            watcher.queued() == Seq::<ChangeView>::empty(),
            forall|other: Seq<char>| !watcher.refuses(other),
    {
        ScriptedWatcher { queue: VecDeque::new(), current_path: path, refused: Vec::new() }
    }

    /// From now on a switch to `path` fails.
    pub fn refuse(&mut self, path: String)
        ensures
            final(self).target() == old(self).target(),
            final(self).queued() == old(self).queued(),
            forall|other: Seq<char>|
                final(self).refuses(other) == (other == path@ || old(self).refuses(other)),
    {
        let ghost before = self.refused@;
        self.refused.push(path);
        assert forall|other: Seq<char>|
            self.refuses(other) == (other == path@ || old(self).refuses(other)) by {
            if other == path@ {
                assert(self.refused@[before.len() as int]@ == other);
            }
            if old(self).refuses(other) {
                let i = choose|i: int| 0 <= i < before.len() && (#[trigger] before[i])@ == other;
                assert(self.refused@[i]@ == other);
            }
        }
    }

    /// Queues a change behind those that wait to be handed out.
    pub fn push(&mut self, change: Change)
        ensures
            final(self).queued() == old(self).queued().push(change@),
            final(self).target() == old(self).target(),
            forall|other: Seq<char>| final(self).refuses(other) == old(self).refuses(other),
    {
        self.queue.push_back(change);
        assert(self.queue.deep_view() =~= old(self).queue.deep_view().push(change@));
        assert(self.refused@ == old(self).refused@);
    }

    /// The path that is being observed.
    pub fn current_path(&self) -> (path: &String)
        ensures
            path@ == self.target(),
    {
        &self.current_path
    }

    fn is_refused(&self, path: &String) -> (refused: bool)
        ensures
            refused == self.refuses(path@),
    {
        let mut i: usize = 0;
        while i < self.refused.len()
            invariant
                i <= self.refused@.len(),
                forall|j: int| 0 <= j < i ==> (#[trigger] self.refused@[j])@ != path@,
            decreases self.refused.len() - i,
        {
            if self.refused[i] == *path {
                return true;
            }
            i += 1;
        }
        false
    }
}

/// The message with which a scripted watch refuses a path.
pub open spec fn refusal_text() -> Seq<char> {
    "the path cannot be watched"@
}

impl Watcher for ScriptedWatcher {
    closed spec fn target(&self) -> Seq<char> {
        self.current_path@
    }

    /// A switch fails, with [`refusal_text`], exactly on the paths that the
    /// watch was told to refuse; it leaves the queue and the refusals alone.
    open spec fn switched_from(
        &self,
        before: &Self,
        path: Seq<char>,
        outcome: Result<(), Seq<char>>,
    ) -> bool {
        &&& self.queued() == before.queued()
        &&& forall|other: Seq<char>| self.refuses(other) == before.refuses(other)
        &&& match outcome {
            Ok(_) => !before.refuses(path) && self.target() == path,
            Err(message) => {
                &&& before.refuses(path)
                &&& message == refusal_text()
                &&& self.target() == before.target()
            },
        }
    }

    /// A poll hands out the oldest change that waits, and nothing exactly
    /// where none waits; the others keep their order, and the target and
    /// the refusals stay.
    open spec fn polled_from(&self, before: &Self, polled: Option<ChangeView>) -> bool {
        &&& self.target() == before.target()
        &&& forall|other: Seq<char>| self.refuses(other) == before.refuses(other)
        &&& match polled {
            Some(taken) => {
                &&& before.queued().len() > 0
                &&& taken == before.queued().first()
                &&& self.queued() == before.queued().drop_first()
            },
            None => before.queued().len() == 0 && self.queued() == before.queued(),
        }
    }

    fn watch(&mut self, path: String) -> (outcome: Result<(), String>) {
        let started = if self.is_refused(&path) {
            Err(WatchError::Generic(String::from_str("the path cannot be watched")))
        } else {
            Ok(())
        };
        let outcome = settle_retarget(&mut self.current_path, path, started);
        assert(self.refused@ == old(self).refused@);
        outcome
    }

    fn look_for_changes(&mut self) -> (change: Option<Change>) {
        let change = self.queue.pop_front();
        assert(self.refused@ == old(self).refused@);
        if change.is_some() {
            assert(self.queue.deep_view() =~= old(self).queue.deep_view().drop_first());
        }
        change
    }
}

} // verus!
