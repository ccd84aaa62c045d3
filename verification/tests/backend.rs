use dirwatch::change::{Change, CreateKind};
use dirwatch::classifier::{RawEvent, RawEventKind, RenamePairingState};
use dirwatch::watcher::{
    deliver, get_notify_changes, raw_event, settle_kind, settle_retarget, FileSystemWatcher,
    WatchError, Watcher,
};
use notify::event::{
    AccessKind, DataChange, Flag, MetadataKind, ModifyKind, RemoveKind, RenameMode,
};
use notify::{Event, EventKind};
use std::sync::atomic::{AtomicUsize, Ordering};
use std::sync::Arc;

fn kind_of(kind: EventKind) -> RawEventKind {
    raw_event(Event::new(kind)).kind
}

#[test]
fn backend_kinds_are_told_apart() {
    assert_eq!(kind_of(EventKind::Any), RawEventKind::Any);
    assert_eq!(kind_of(EventKind::Other), RawEventKind::Other);
    assert_eq!(kind_of(EventKind::Access(AccessKind::Read)), RawEventKind::Access);
    assert_eq!(kind_of(EventKind::Create(notify::event::CreateKind::File)), RawEventKind::CreateFile);
    assert_eq!(
        kind_of(EventKind::Create(notify::event::CreateKind::Folder)),
        RawEventKind::CreateFolder
    );
    assert_eq!(kind_of(EventKind::Create(notify::event::CreateKind::Any)), RawEventKind::CreateAny);
    assert_eq!(kind_of(EventKind::Create(notify::event::CreateKind::Other)), RawEventKind::CreateAny);
    assert_eq!(kind_of(EventKind::Remove(RemoveKind::File)), RawEventKind::Remove);
    assert_eq!(kind_of(EventKind::Remove(RemoveKind::Any)), RawEventKind::Remove);
}

#[test]
fn backend_modifications_are_told_apart() {
    assert_eq!(kind_of(EventKind::Modify(ModifyKind::Any)), RawEventKind::ModifyAny);
    assert_eq!(kind_of(EventKind::Modify(ModifyKind::Other)), RawEventKind::ModifyOther);
    assert_eq!(
        kind_of(EventKind::Modify(ModifyKind::Data(DataChange::Size))),
        RawEventKind::ModifySize
    );
    assert_eq!(
        kind_of(EventKind::Modify(ModifyKind::Data(DataChange::Content))),
        RawEventKind::ModifyData
    );
    assert_eq!(
        kind_of(EventKind::Modify(ModifyKind::Data(DataChange::Any))),
        RawEventKind::ModifyData
    );
    assert_eq!(
        kind_of(EventKind::Modify(ModifyKind::Metadata(MetadataKind::Permissions))),
        RawEventKind::ModifyMetadata
    );
}

#[test]
fn backend_renames_are_told_apart() {
    assert_eq!(
        kind_of(EventKind::Modify(ModifyKind::Name(RenameMode::From))),
        RawEventKind::RenameFrom
    );
    assert_eq!(kind_of(EventKind::Modify(ModifyKind::Name(RenameMode::To))), RawEventKind::RenameTo);
    assert_eq!(
        kind_of(EventKind::Modify(ModifyKind::Name(RenameMode::Both))),
        RawEventKind::RenameBoth
    );
    assert_eq!(
        kind_of(EventKind::Modify(ModifyKind::Name(RenameMode::Any))),
        RawEventKind::RenameOther
    );
    assert_eq!(
        kind_of(EventKind::Modify(ModifyKind::Name(RenameMode::Other))),
        RawEventKind::RenameOther
    );
}

#[test]
fn backend_event_keeps_paths_and_flag() {
    let event = Event::new(EventKind::Remove(RemoveKind::File))
        .add_path("/d/a".into())
        .add_path("/d/b".into());
    assert_eq!(
        raw_event(event),
        RawEvent {
            kind: RawEventKind::Remove,
            paths: vec!["/d/a".to_string(), "/d/b".to_string()],
            need_rescan: false,
        }
    );
    let flagged = Event::new(EventKind::Other).set_flag(Flag::Rescan);
    assert_eq!(
        raw_event(flagged),
        RawEvent { kind: RawEventKind::Other, paths: vec![], need_rescan: true }
    );
}

#[test]
fn backend_split_rename_is_paired() {
    let mut state = RenamePairingState::new();
    let from = Event::new(EventKind::Modify(ModifyKind::Name(RenameMode::From))).add_path("/d/a".into());
    assert_eq!(get_notify_changes(from, &mut state), vec![]);
    assert_eq!(state.pending_from, Some("/d/a".to_string()));
    let to = Event::new(EventKind::Modify(ModifyKind::Name(RenameMode::To))).add_path("/d/b".into());
    assert_eq!(
        get_notify_changes(to, &mut state),
        vec![Change::Rename("/d/a".to_string(), "/d/b".to_string())]
    );
    assert_eq!(state.pending_from, None);
}

#[test]
fn backend_rescan_flag_wins() {
    let mut state = RenamePairingState { pending_from: Some("/d/a".to_string()) };
    let event = Event::new(EventKind::Create(notify::event::CreateKind::File))
        .add_path("/d/b".into())
        .set_flag(Flag::Rescan);
    assert_eq!(get_notify_changes(event, &mut state), vec![Change::Unknown]);
    assert_eq!(state.pending_from, None);
}

#[test]
fn delivery_queues_changes_and_calls_back() {
    let (sender, receiver) = std::sync::mpsc::channel();
    let calls = Arc::new(AtomicUsize::new(0));
    let counter = calls.clone();
    let on_change = move || {
        counter.fetch_add(1, Ordering::SeqCst);
    };
    let mut state = RenamePairingState::new();
    let event = Event::new(EventKind::Create(notify::event::CreateKind::Folder))
        .add_path("/d/a".into())
        .add_path("/d/b".into());
    deliver(Ok(event), &mut state, &sender, &on_change);
    assert_eq!(calls.load(Ordering::SeqCst), 2);
    assert_eq!(receiver.try_recv().ok(), Some(Change::Create(CreateKind::Directory, "/d/a".to_string())));
    assert_eq!(receiver.try_recv().ok(), Some(Change::Create(CreateKind::Directory, "/d/b".to_string())));
    assert_eq!(receiver.try_recv().ok(), None);
}

#[test]
fn failed_delivery_is_dropped() {
    let (sender, receiver) = std::sync::mpsc::channel();
    let calls = Arc::new(AtomicUsize::new(0));
    let counter = calls.clone();
    let on_change = move || {
        counter.fetch_add(1, Ordering::SeqCst);
    };
    let mut state = RenamePairingState { pending_from: Some("/d/a".to_string()) };
    deliver(Err(notify::Error::generic("lost")), &mut state, &sender, &on_change);
    assert_eq!(calls.load(Ordering::SeqCst), 0);
    assert_eq!(receiver.try_recv().ok(), None);
    assert_eq!(state.pending_from, Some("/d/a".to_string()));
}

#[test]
fn delivery_without_receiver_does_not_call_back() {
    let (sender, receiver) = std::sync::mpsc::channel();
    drop(receiver);
    let calls = Arc::new(AtomicUsize::new(0));
    let counter = calls.clone();
    let on_change = move || {
        counter.fetch_add(1, Ordering::SeqCst);
    };
    let mut state = RenamePairingState::new();
    let event = Event::new(EventKind::Remove(RemoveKind::Any)).add_path("/d/a".into());
    deliver(Ok(event), &mut state, &sender, &on_change);
    assert_eq!(calls.load(Ordering::SeqCst), 0);
}

#[test]
fn watch_error_messages() {
    assert_eq!(WatchError::Generic("no such watch".to_string()).message(), "no such watch");
    assert_eq!(WatchError::Io("permission denied".to_string()).message(), "permission denied");
    assert_eq!(WatchError::Internal("MaxFilesWatch".to_string()).message(), "Internal error MaxFilesWatch");
}

#[test]
fn settled_retarget_moves_only_on_success() {
    let mut current = "/d".to_string();
    assert_eq!(settle_retarget(&mut current, "/e".to_string(), Ok(())), Ok(()));
    assert_eq!(current, "/e");
    let failed = settle_retarget(
        &mut current,
        "/f".to_string(),
        Err(WatchError::Internal("PathNotFound".to_string())),
    );
    assert_eq!(failed, Err("Internal error PathNotFound".to_string()));
    assert_eq!(current, "/e");
    let failed = settle_retarget(&mut current, "/f".to_string(), Err(WatchError::Io("gone".to_string())));
    assert_eq!(failed, Err("gone".to_string()));
    assert_eq!(current, "/e");
}

#[test]
fn file_system_watcher_moves_when_a_switch_succeeds() {
    match FileSystemWatcher::new("/".to_string(), || {}) {
        Ok(mut watcher) => {
            let outcome = watcher.watch("/tmp".to_string());
            match outcome {
                Ok(()) => assert_eq!(watcher.current_path(), "/tmp"),
                Err(_) => assert_eq!(watcher.current_path(), "/"),
            }
        },
        Err(message) => assert!(!message.is_empty()),
    }
}

#[test]
fn file_system_watcher_keeps_its_target_when_a_switch_fails() {
    match FileSystemWatcher::new("/".to_string(), || {}) {
        Ok(mut watcher) => {
            assert_eq!(watcher.current_path(), "/");
            assert_eq!(watcher.look_for_changes(), None);
            let outcome = watcher.watch("/no/such/entry/anywhere".to_string());
            match outcome {
                Ok(()) => panic!("a path that does not exist was accepted"),
                Err(message) => assert!(!message.is_empty()),
            }
            assert_eq!(watcher.current_path(), "/");
        },
        Err(message) => assert!(!message.is_empty()),
    }
}

#[test]
fn kind_is_the_first_reading_there_is() {
    assert_eq!(
        settle_kind(Some(RawEventKind::RenameTo), Some(RawEventKind::ModifyAny), RawEventKind::Other),
        RawEventKind::RenameTo
    );
    assert_eq!(
        settle_kind(Some(RawEventKind::RenameFrom), None, RawEventKind::Remove),
        RawEventKind::RenameFrom
    );
    assert_eq!(
        settle_kind(None, Some(RawEventKind::ModifySize), RawEventKind::Other),
        RawEventKind::ModifySize
    );
    assert_eq!(settle_kind(None, None, RawEventKind::CreateFile), RawEventKind::CreateFile);
}

#[test]
fn backend_events_of_unlisted_kinds_are_ignored() {
    for kind in [
        EventKind::Any,
        EventKind::Other,
        EventKind::Access(AccessKind::Any),
        EventKind::Modify(ModifyKind::Other),
        EventKind::Modify(ModifyKind::Name(RenameMode::Any)),
    ] {
        let mut state = RenamePairingState { pending_from: Some("/d/p".to_string()) };
        let event = Event::new(kind).add_path("/d/a".into());
        assert_eq!(get_notify_changes(event, &mut state), vec![]);
        assert_eq!(state.pending_from, Some("/d/p".to_string()));
    }
}

#[test]
fn backend_removal_gives_one_change_per_path() {
    let mut state = RenamePairingState::new();
    let event = Event::new(EventKind::Remove(RemoveKind::Folder))
        .add_path("/d/a".into())
        .add_path("/d/b".into());
    assert_eq!(
        get_notify_changes(event, &mut state),
        vec![Change::Remove("/d/a".to_string()), Change::Remove("/d/b".to_string())]
    );
}

#[test]
fn file_system_watcher_goes_on_after_a_refused_switch() {
    match FileSystemWatcher::new("/".to_string(), || {}) {
        Ok(mut watcher) => {
            assert!(watcher.watch("/no/such/entry/anywhere".to_string()).is_err());
            assert_eq!(watcher.current_path(), "/");
            match watcher.watch("/tmp".to_string()) {
                Ok(()) => assert_eq!(watcher.current_path(), "/tmp"),
                Err(_) => assert_eq!(watcher.current_path(), "/"),
            }
        },
        Err(message) => assert!(!message.is_empty()),
    }
}
