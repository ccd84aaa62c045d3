//! Normalisation of raw backend notifications into [`Change`] records,
//! including the pairing of renames that a backend reports in two halves.
use vstd::prelude::*;
use crate::change::{Change, ChangeView, CreateKind};
use crate::disk::{path_exists, path_is_dir};

verus! {

/// The kind of a raw notification, as far as classification tells kinds apart.
#[derive(Debug, Clone, Copy, PartialEq, Eq, Structural)]
pub enum RawEventKind {
    /// The backend did not say what happened. Such a notification is
    /// ignored unless it is flagged as needing a rescan.
    Any,
    Access,
    CreateFile,
    CreateFolder,
    /// Something was created; the backend does not say whether file or directory.
    CreateAny,
    ModifyAny,
    ModifyData,
    /// A pure change of size.
    ModifySize,
    ModifyMetadata,
    ModifyOther,
    /// First half of a rename reported in two events: the source path.
    RenameFrom,
    /// Second half of a rename reported in two events: the destination path.
    RenameTo,
    /// A rename reported in one event: source path, then destination path.
    RenameBoth,
    /// A rename of which the backend does not say which half it is.
    RenameOther,
    Remove,
    Other,
}

/// What a look at the disk said of a path.
#[derive(Debug, Clone, Copy, PartialEq, Eq, Structural)]
pub enum PathProbe {
    Directory,
    File,
    /// Nothing is there any more, or it cannot be reached.
    Missing,
}

/// A raw notification: its kind, the paths it is about, and whether the
/// backend admits that notifications may have been lost.
#[derive(Debug, PartialEq, Eq)]
pub struct RawEvent {
    pub kind: RawEventKind,
    pub paths: Vec<String>,
    pub need_rescan: bool,
}

/// The mathematical value of a [`RawEvent`].
pub struct RawEventView {
    pub kind: RawEventKind,
    pub paths: Seq<Seq<char>>,
    pub need_rescan: bool,
}

impl View for RawEvent {
    type V = RawEventView;

    open spec fn view(&self) -> RawEventView {
        RawEventView {
            kind: self.kind,
            paths: self.paths.deep_view(),
            need_rescan: self.need_rescan,
        }
    }
}

/// The single slot that holds the source path of a rename whose destination
/// has not arrived yet.
#[derive(Debug, PartialEq, Eq)]
pub struct RenamePairingState {
    pub pending_from: Option<String>,
}

impl View for RenamePairingState {
    type V = Option<Seq<char>>;

    open spec fn view(&self) -> Option<Seq<char>> {
        match self.pending_from {
            Some(path) => Some(path@),
            None => None,
        }
    }
}

/// The single change that an event brings for each of its paths.
#[derive(Debug, Clone, Copy, PartialEq, Eq, Structural)]
pub enum PathEffect {
    CreatedFile,
    CreatedDirectory,
    Modified,
    Removed,
}

impl PathEffect {
    /// The change that this effect is on `path`.
    pub open spec fn on(self, path: Seq<char>) -> ChangeView {
        match self {
            PathEffect::CreatedFile => ChangeView::Create(CreateKind::File, path),
            PathEffect::CreatedDirectory => ChangeView::Create(CreateKind::Directory, path),
            PathEffect::Modified => ChangeView::Modify(path),
            PathEffect::Removed => ChangeView::Remove(path),
        }
    }

    /// Builds the change that this effect is on `path`.
    pub fn change(self, path: String) -> (change: Change)
        ensures
            change@ == self.on(path@),
    {
        match self {
            PathEffect::CreatedFile => Change::Create(CreateKind::File, path),
            PathEffect::CreatedDirectory => Change::Create(CreateKind::Directory, path),
            PathEffect::Modified => Change::Modify(path),
            PathEffect::Removed => Change::Remove(path),
        }
    }
}

/// One change per path, in the order of the paths.
pub open spec fn one_per_path(effect: PathEffect, paths: Seq<Seq<char>>) -> Seq<ChangeView> {
    Seq::new(paths.len(), |i: int| effect.on(paths[i]))
}

/// The creations that an ambiguous notification stands for, given what the
/// disk said of each path: a path that is gone brings nothing.
pub open spec fn probed_creations(paths: Seq<Seq<char>>, probes: Seq<PathProbe>) -> Seq<ChangeView>
    recommends
        paths.len() == probes.len(),
    decreases paths.len(),
{
    if paths.len() == 0 || probes.len() == 0 {
        Seq::empty()
    } else {
        let earlier = probed_creations(paths.drop_last(), probes.drop_last());
        match probes.last() {
            PathProbe::Directory => earlier.push(PathEffect::CreatedDirectory.on(paths.last())),
            PathProbe::File => earlier.push(PathEffect::CreatedFile.on(paths.last())),
            PathProbe::Missing => earlier,
        }
    }
}

/// What classification yields: the changes emitted, and the pairing slot
/// afterwards.
pub struct Classified {
    pub changes: Seq<ChangeView>,
    pub pending: Option<Seq<char>>,
}

/// The outcome of a protocol violation or of an admitted loss: a full
/// rescan is forced and any half-seen rename is forgotten.
pub open spec fn rescan() -> Classified {
    Classified { changes: seq![ChangeView::Unknown], pending: None }
}

/// Whether classification of `event` has to look at the disk.
pub open spec fn needs_probe(event: RawEventView) -> bool {
    !event.need_rescan && event.kind == RawEventKind::CreateAny
}

/// The classification rules, in the order in which they apply.
///
/// A notification flagged as needing a rescan forces a rescan, whatever
/// its kind. A creation, a modification of data, size or metadata,
/// and a removal bring one change for each path. The source half of a
/// rename is held back in the pairing slot; the destination half is paired
/// with it. A rename in one piece is handed on as it is. A rename half that
/// does not fit the slot, or any rename with the wrong number of paths, is
/// a violation of the protocol and forces a rescan. Every other kind is
/// ignored, the unspecified kind among them: it brings nothing and leaves
/// the pairing slot as it is.
pub open spec fn classify_spec(
    event: RawEventView,
    probes: Seq<PathProbe>,
    pending: Option<Seq<char>>,
) -> Classified {
    let paths = event.paths;
    if event.need_rescan {
        rescan()
    } else {
        match event.kind {
            RawEventKind::CreateFile => Classified {
                changes: one_per_path(PathEffect::CreatedFile, paths),
                pending,
            },
            RawEventKind::CreateFolder => Classified {
                changes: one_per_path(PathEffect::CreatedDirectory, paths),
                pending,
            },
            RawEventKind::CreateAny => Classified {
                changes: probed_creations(paths, probes),
                pending,
            },
            RawEventKind::ModifyAny
            | RawEventKind::ModifyData
            | RawEventKind::ModifySize
            | RawEventKind::ModifyMetadata => Classified {
                changes: one_per_path(PathEffect::Modified, paths),
                pending,
            },
            RawEventKind::RenameFrom => {
                if pending is None && paths.len() == 1 {
                    Classified { changes: Seq::empty(), pending: Some(paths[0]) }
                } else {
                    rescan()
                }
            },
            RawEventKind::RenameTo => {
                if pending is Some && paths.len() == 1 {
                    Classified {
                        changes: seq![ChangeView::Rename(pending->0, paths[0])],
                        pending: None,
                    }
                } else {
                    rescan()
                }
            },
            RawEventKind::RenameBoth => {
                if paths.len() == 2 {
                    Classified { changes: seq![ChangeView::Rename(paths[0], paths[1])], pending }
                } else {
                    rescan()
                }
            },
            RawEventKind::Remove => Classified {
                changes: one_per_path(PathEffect::Removed, paths),
                pending,
            },
            RawEventKind::Any
            | RawEventKind::Access
            | RawEventKind::ModifyOther
            | RawEventKind::RenameOther
            | RawEventKind::Other => Classified { changes: Seq::empty(), pending },
        }
    }
}

impl RenamePairingState {
    /// The state in which no rename is half-seen.
    pub fn new() -> (state: Self)
        ensures
            state@ is None,
    {
        RenamePairingState { pending_from: None }
    }
}

/// One change of the given effect for each path, in order.
fn emit_per_path(effect: PathEffect, paths: &Vec<String>) -> (changes: Vec<Change>)
    ensures
        changes.deep_view() == one_per_path(effect, paths.deep_view()),
{
    let mut changes: Vec<Change> = Vec::new();
    let mut i: usize = 0;
    while i < paths.len()
        invariant
            i <= paths.len(),
            changes@.len() == i,
            forall|j: int| 0 <= j < i ==> (#[trigger] changes@[j])@ == effect.on(paths@[j]@),
        decreases paths.len() - i,
    {
        changes.push(effect.change(paths[i].clone()));
        i += 1;
    }
    changes
}

/// The creations for paths whose kind the disk had to tell.
fn emit_probed(paths: &Vec<String>, probes: &Vec<PathProbe>) -> (changes: Vec<Change>)
    requires
        paths@.len() == probes@.len(),
    ensures
        changes.deep_view() == probed_creations(paths.deep_view(), probes@),
{
    let mut changes: Vec<Change> = Vec::new();
    let mut i: usize = 0;
    while i < paths.len()
        invariant
            i <= paths.len(),
            paths@.len() == probes@.len(),
            changes.deep_view() == probed_creations(
                paths.deep_view().take(i as int),
                probes@.take(i as int),
            ),
        decreases paths.len() - i,
    {
        proof {
            assert(paths.deep_view().take(i + 1).drop_last() =~= paths.deep_view().take(i as int));
            assert(probes@.take(i + 1).drop_last() =~= probes@.take(i as int));
        }
        match probes[i] {
            PathProbe::Directory => {
                changes.push(PathEffect::CreatedDirectory.change(paths[i].clone()));
            },
            PathProbe::File => {
                changes.push(PathEffect::CreatedFile.change(paths[i].clone()));
            },
            PathProbe::Missing => {},
        }
        i += 1;
    }
    proof {
        assert(paths.deep_view().take(i as int) =~= paths.deep_view());
        assert(probes@.take(i as int) =~= probes@);
    }
    changes
}

/// Forgets any half-seen rename and forces a full rescan.
fn force_rescan(state: &mut RenamePairingState) -> (changes: Vec<Change>)
    ensures
        changes.deep_view() == rescan().changes,
        final(state)@ == rescan().pending,
{
    state.pending_from = None;
    let mut changes: Vec<Change> = Vec::new();
    changes.push(Change::Unknown);
    changes
}

/// Classifies one raw notification, given what the disk said of each of its
/// paths. The probes are read only where [`needs_probe`] holds.
pub fn classify_probed(
    event: RawEvent,
    probes: &Vec<PathProbe>,
    state: &mut RenamePairingState,
) -> (changes: Vec<Change>)
    requires
        needs_probe(event@) ==> probes@.len() == event.paths@.len(),
    ensures
        changes.deep_view() == classify_spec(event@, probes@, old(state)@).changes,
        final(state)@ == classify_spec(event@, probes@, old(state)@).pending,
{
    if event.need_rescan {
        return force_rescan(state);
    }
    match event.kind {
        RawEventKind::CreateFile => emit_per_path(PathEffect::CreatedFile, &event.paths),
        RawEventKind::CreateFolder => emit_per_path(PathEffect::CreatedDirectory, &event.paths),
        RawEventKind::CreateAny => emit_probed(&event.paths, probes),
        RawEventKind::ModifyAny
        | RawEventKind::ModifyData
        | RawEventKind::ModifySize
        | RawEventKind::ModifyMetadata => emit_per_path(PathEffect::Modified, &event.paths),
        RawEventKind::RenameFrom => {
            if state.pending_from.is_none() && event.paths.len() == 1 {
                state.pending_from = Some(event.paths[0].clone());
                Vec::new()
            } else {
                force_rescan(state)
            }
        },
        RawEventKind::RenameTo => {
            if event.paths.len() == 1 {
                match state.pending_from.take() {
                    Some(from) => {
                        let mut changes: Vec<Change> = Vec::new();
                        changes.push(Change::Rename(from, event.paths[0].clone()));
                        changes
                    },
                    None => force_rescan(state),
                }
            } else {
                force_rescan(state)
            }
        },
        RawEventKind::RenameBoth => {
            if event.paths.len() == 2 {
                let mut changes: Vec<Change> = Vec::new();
                changes.push(Change::Rename(event.paths[0].clone(), event.paths[1].clone()));
                changes
            } else {
                force_rescan(state)
            }
        },
        RawEventKind::Remove => emit_per_path(PathEffect::Removed, &event.paths),
        RawEventKind::Any
        | RawEventKind::Access
        | RawEventKind::ModifyOther
        | RawEventKind::RenameOther
        | RawEventKind::Other => {
            let changes: Vec<Change> = Vec::new();
            changes
        },
    }
}

impl PathProbe {
    /// The probe that two answers of the disk amount to: a directory where
    /// the path is one, a file where it is anything else that exists.
    pub fn from_answers(is_dir: bool, present: bool) -> (probe: PathProbe)
        ensures
            probe == if is_dir {
                PathProbe::Directory
            } else if present {
                PathProbe::File
            } else {
                PathProbe::Missing
            },
    {
        if is_dir {
            PathProbe::Directory
        } else if present {
            PathProbe::File
        } else {
            PathProbe::Missing
        }
    }

    /// Looks at the disk. Whether the path exists is asked only if it is no
    /// directory.
    pub fn of_path(path: &String) -> PathProbe {
        if path_is_dir(path) {
            PathProbe::from_answers(true, true)
        } else {
            PathProbe::from_answers(false, path_exists(path))
        }
    }
}

/// Looks at the disk once for each path, in order.
fn probe_all(paths: &Vec<String>) -> (probes: Vec<PathProbe>)
    ensures
        probes@.len() == paths@.len(),
{
    let mut probes: Vec<PathProbe> = Vec::new();
    let mut i: usize = 0;
    while i < paths.len()
        invariant
            i <= paths.len(),
            probes@.len() == i,
        decreases paths.len() - i,
    {
        probes.push(PathProbe::of_path(&paths[i]));
        i += 1;
    }
    probes
}

/// Classifies one raw notification, updating the pairing state.
///
/// The disk is looked at only for a creation whose kind the backend left
/// open, once per path; the outcome is then that of [`classify_probed`] for
/// whatever the disk said. Every other notification is classified by the
/// rules alone.
pub fn classify(event: RawEvent, state: &mut RenamePairingState) -> (changes: Vec<Change>)
    ensures
        exists|probes: Seq<PathProbe>|
            {
                &&& probes.len() == event@.paths.len()
                &&& changes.deep_view() == (#[trigger] classify_spec(
                    event@,
                    probes,
                    old(state)@,
                )).changes
                &&& final(state)@ == classify_spec(event@, probes, old(state)@).pending
            },
        !needs_probe(event@) ==> {
            &&& changes.deep_view() == classify_spec(event@, Seq::empty(), old(state)@).changes
            &&& final(state)@ == classify_spec(event@, Seq::empty(), old(state)@).pending
        },
{
    let ghost before = state@;
    let probes = if !event.need_rescan && event.kind == RawEventKind::CreateAny {
        probe_all(&event.paths)
    } else {
        Vec::new()
    };
    let changes = classify_probed(event, &probes, state);
    proof {
        if !needs_probe(event@) {
            let told = Seq::new(event@.paths.len(), |i: int| PathProbe::Missing);
            lemma_probes_read_only_when_needed(event@, probes@, told, before);
            lemma_probes_read_only_when_needed(event@, probes@, Seq::empty(), before);
        }
    }
    changes
}

/// What a run of notifications yields, classified one after the other: the
/// changes in the order emitted, and the pairing slot at the end.
pub open spec fn classify_run(
    events: Seq<RawEventView>,
    probes: Seq<Seq<PathProbe>>,
    pending: Option<Seq<char>>,
) -> Classified
    recommends
        events.len() == probes.len(),
    decreases events.len(),
{
    if events.len() == 0 || probes.len() == 0 {
        Classified { changes: Seq::empty(), pending }
    } else {
        let earlier = classify_run(events.drop_last(), probes.drop_last(), pending);
        let last = classify_spec(events.last(), probes.last(), earlier.pending);
        Classified { changes: earlier.changes + last.changes, pending: last.pending }
    }
}

/// Whether a notification is neither half of a rename nor one that forces a
/// rescan.
pub open spec fn is_bystander(event: RawEventView) -> bool {
    &&& !event.need_rescan
    &&& event.kind != RawEventKind::RenameFrom
    &&& event.kind != RawEventKind::RenameTo
    &&& (event.kind == RawEventKind::RenameBoth ==> event.paths.len() == 2)
}

/// The source half of a split rename of `path`.
pub open spec fn rename_from(path: Seq<char>) -> RawEventView {
    RawEventView { kind: RawEventKind::RenameFrom, paths: seq![path], need_rescan: false }
}

/// The destination half of a split rename to `path`.
pub open spec fn rename_to(path: Seq<char>) -> RawEventView {
    RawEventView { kind: RawEventKind::RenameTo, paths: seq![path], need_rescan: false }
}

/// A rename of `from` to `to` in one notification.
pub open spec fn rename_both(from: Seq<char>, to: Seq<char>) -> RawEventView {
    RawEventView { kind: RawEventKind::RenameBoth, paths: seq![from, to], need_rescan: false }
}

/// Where no look at the disk is needed, the probes do not enter into the
/// outcome.
pub proof fn lemma_probes_read_only_when_needed(
    event: RawEventView,
    probes: Seq<PathProbe>,
    others: Seq<PathProbe>,
    pending: Option<Seq<char>>,
)
    requires
        !needs_probe(event),
    ensures
        classify_spec(event, probes, pending) == classify_spec(event, others, pending),
{
}

/// A rename delivered in two halves, source `from` and then destination
/// `to`, yields nothing at the first half and exactly `Rename(from, to)` at
/// the second, and leaves the pairing slot empty.
pub proof fn lemma_split_rename_is_paired(
    from: Seq<char>,
    to: Seq<char>,
    first_probes: Seq<PathProbe>,
    second_probes: Seq<PathProbe>,
)
    ensures
        ({
            let first = classify_spec(rename_from(from), first_probes, None);
            let second = classify_spec(rename_to(to), second_probes, first.pending);
            &&& first.changes == Seq::<ChangeView>::empty()
            &&& first.pending == Some(from)
            &&& second.changes == seq![ChangeView::Rename(from, to)]
            &&& second.pending is None
        }),
{
}

/// Notifications that are no part of a split rename and force no rescan
/// leave the pairing slot as it is, however many arrive and in whatever
/// order: a pending source path waits through them for its destination.
pub proof fn lemma_bystanders_keep_pairing(
    events: Seq<RawEventView>,
    probes: Seq<Seq<PathProbe>>,
    pending: Option<Seq<char>>,
)
    requires
        events.len() == probes.len(),
        forall|i: int| 0 <= i < events.len() ==> is_bystander(#[trigger] events[i]),
    ensures
        classify_run(events, probes, pending).pending == pending,
    decreases events.len(),
{
    if events.len() > 0 {
        lemma_bystanders_keep_pairing(events.drop_last(), probes.drop_last(), pending);
    }
}

/// A split rename with bystanders between its halves: the run ends with
/// exactly `Rename(from, to)`, after what the bystanders themselves brought,
/// and with the pairing slot empty.
pub proof fn lemma_interleaved_split_rename(
    from: Seq<char>,
    to: Seq<char>,
    between: Seq<RawEventView>,
    probes: Seq<Seq<PathProbe>>,
)
    requires
        probes.len() == between.len() + 2,
        forall|i: int| 0 <= i < between.len() ==> is_bystander(#[trigger] between[i]),
    ensures
        ({
            let events = seq![rename_from(from)] + between + seq![rename_to(to)];
            let middle = classify_run(between, probes.subrange(1, probes.len() - 1), Some(from));
            let whole = classify_run(events, probes, None);
            &&& whole.changes == middle.changes + seq![ChangeView::Rename(from, to)]
            &&& whole.pending is None
        }),
{
    let events = seq![rename_from(from)] + between + seq![rename_to(to)];
    let head = seq![rename_from(from)] + between;
    let head_probes = probes.drop_last();
    let middle_probes = probes.subrange(1, probes.len() - 1);
    assert(events.drop_last() =~= head);
    lemma_run_after_first(rename_from(from), between, head_probes, None);
    assert(head_probes.drop_first() =~= middle_probes);
    lemma_bystanders_keep_pairing(between, middle_probes, Some(from));
}

/// A run is its first notification followed by the run of the others.
pub proof fn lemma_run_after_first(
    first: RawEventView,
    others: Seq<RawEventView>,
    probes: Seq<Seq<PathProbe>>,
    pending: Option<Seq<char>>,
)
    requires
        probes.len() == others.len() + 1,
    ensures
        ({
            let start = classify_spec(first, probes[0], pending);
            let rest = classify_run(others, probes.drop_first(), start.pending);
            let whole = classify_run(seq![first] + others, probes, pending);
            &&& whole.changes == start.changes + rest.changes
            &&& whole.pending == rest.pending
        }),
    decreases others.len(),
{
    let events = seq![first] + others;
    let start = classify_spec(first, probes[0], pending);
    if others.len() == 0 {
        assert(events.drop_last() =~= Seq::<RawEventView>::empty());
        assert(events.last() == first);
        assert(probes.last() == probes[0]);
        let none = classify_run(events.drop_last(), probes.drop_last(), pending);
        assert(none.changes + start.changes =~= start.changes + Seq::<ChangeView>::empty());
    } else {
        lemma_run_after_first(first, others.drop_last(), probes.drop_last(), pending);
        assert(events.drop_last() =~= seq![first] + others.drop_last());
        assert(probes.drop_last().drop_first() =~= probes.drop_first().drop_last());
        assert(events.last() == others.last());
        assert(probes.last() == probes.drop_first().last());
        let rest_earlier = classify_run(
            others.drop_last(),
            probes.drop_first().drop_last(),
            start.pending,
        );
        let last = classify_spec(others.last(), probes.last(), rest_earlier.pending);
        assert((start.changes + rest_earlier.changes) + last.changes =~= start.changes + (
        rest_earlier.changes + last.changes));
    }
}

/// A rename delivered as one notification with both paths yields the same
/// single change as the two halves do, and does not touch the pairing slot.
pub proof fn lemma_combined_rename_matches_split(
    from: Seq<char>,
    to: Seq<char>,
    probes: Seq<PathProbe>,
    pending: Option<Seq<char>>,
)
    ensures
        classify_spec(rename_both(from, to), probes, pending).changes == seq![
            ChangeView::Rename(from, to),
        ],
        classify_spec(rename_both(from, to), probes, pending).pending == pending,
        classify_spec(rename_both(from, to), probes, pending).changes == classify_spec(
            rename_to(to),
            probes,
            classify_spec(rename_from(from), probes, None).pending,
        ).changes,
{
}

/// A notification flagged as needing a rescan yields exactly `Unknown` and
/// empties the pairing slot, whatever its kind and paths and whatever was
/// pending.
pub proof fn lemma_rescan_flag_wins(
    event: RawEventView,
    probes: Seq<PathProbe>,
    pending: Option<Seq<char>>,
)
    requires
        event.need_rescan,
    ensures
        classify_spec(event, probes, pending).changes == seq![ChangeView::Unknown],
        classify_spec(event, probes, pending).pending is None,
{
}

/// Whenever classification emits `Unknown`, it leaves the pairing slot
/// empty: a rescan abandons any rename that was half-seen.
pub proof fn lemma_unknown_resets_pairing(
    event: RawEventView,
    probes: Seq<PathProbe>,
    pending: Option<Seq<char>>,
)
    ensures
        classify_spec(event, probes, pending).changes.contains(ChangeView::Unknown)
            ==> classify_spec(event, probes, pending).pending is None,
{
    lemma_probed_creations_are_creations(event.paths, probes);
}

/// Every change that a probed creation brings is a creation.
pub proof fn lemma_probed_creations_are_creations(paths: Seq<Seq<char>>, probes: Seq<PathProbe>)
    ensures
        forall|i: int|
            0 <= i < probed_creations(paths, probes).len() ==> (#[trigger] probed_creations(
                paths,
                probes,
            )[i]) is Create,
    decreases paths.len(),
{
    if paths.len() > 0 && probes.len() > 0 {
        lemma_probed_creations_are_creations(paths.drop_last(), probes.drop_last());
    }
}

/// The destination half of a rename that arrives while no source is pending
/// yields exactly `Unknown`, whatever paths it carries; the slot stays empty.
pub proof fn lemma_unpaired_destination_forces_rescan(
    event: RawEventView,
    probes: Seq<PathProbe>,
)
    requires
        event.kind == RawEventKind::RenameTo,
    ensures
        classify_spec(event, probes, None).changes == seq![ChangeView::Unknown],
        classify_spec(event, probes, None).pending is None,
{
}

} // verus!
