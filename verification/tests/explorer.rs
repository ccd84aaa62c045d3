use dirwatch::change::{Change, CreateKind};
use dirwatch::classifier::PathProbe;
use dirwatch::explorer::{
    confirmed_removal, delete_plan, DeletePlan, DiskRequest, FileExplorer, Removal,
};
use dirwatch::file_list::{FileListAction, FileListItem, ItemKind, NewItem};
use dirwatch::watcher::{ScriptedWatcher, Watcher};

fn entry(path: &str, selected: bool) -> FileListItem {
    FileListItem { path: path.to_string(), selected }
}

fn explorer_on(directory: &str, children: &[&str]) -> FileExplorer<ScriptedWatcher> {
    let mut explorer =
        FileExplorer::new(directory.to_string(), ScriptedWatcher::new(directory.to_string()));
    explorer.refresh_childs(children.iter().map(|p| p.to_string()).collect());
    explorer
}

#[test]
fn new_explorer_waits_for_its_listing() {
    let explorer = FileExplorer::new("/d".to_string(), ScriptedWatcher::new("/d".to_string()));
    assert!(explorer.stale);
    assert_eq!(explorer.child_directories, vec![]);
    assert_eq!(explorer.directory, "/d");
    assert_eq!(explorer.current_error(), None);
    assert_eq!(explorer.delete_dialog, None);
}

#[test]
fn refresh_replaces_the_listing_wholesale() {
    let mut explorer = explorer_on("/d", &["/d/a", "/d/b"]);
    explorer.set_selected(0, true);
    explorer.refresh_childs(vec!["/d/c".to_string(), "/d/a".to_string()]);
    assert_eq!(explorer.child_directories, vec![entry("/d/c", false), entry("/d/a", false)]);
    assert!(!explorer.stale);
}

#[test]
fn failed_retarget_changes_nothing() {
    let mut explorer = explorer_on("/d", &["/d/a", "/d/b"]);
    explorer.set_selected(1, true);
    explorer.watcher.refuse("/nowhere".to_string());
    let outcome = explorer.change_dir("/nowhere".to_string());
    assert_eq!(outcome, Err("the path cannot be watched".to_string()));
    assert_eq!(explorer.directory, "/d");
    assert_eq!(explorer.watcher.current_path(), "/d");
    assert_eq!(explorer.child_directories, vec![entry("/d/a", false), entry("/d/b", true)]);
    assert!(!explorer.stale);
}

#[test]
fn successful_retarget_asks_for_one_listing() {
    let mut explorer = explorer_on("/d", &["/d/a", "/d/b"]);
    assert_eq!(explorer.change_dir("/e".to_string()), Ok(()));
    assert_eq!(explorer.directory, "/e");
    assert_eq!(explorer.watcher.current_path(), "/e");
    assert_eq!(explorer.child_directories, vec![]);
    assert!(explorer.stale);
    explorer.refresh_childs(vec!["/e/x".to_string()]);
    assert!(!explorer.stale);
    assert_eq!(explorer.child_directories, vec![entry("/e/x", false)]);
}

#[test]
fn scripted_watcher_moves_only_where_allowed() {
    let mut watcher = ScriptedWatcher::new("/d".to_string());
    watcher.refuse("/x".to_string());
    assert_eq!(watcher.watch("/x".to_string()), Err("the path cannot be watched".to_string()));
    assert_eq!(watcher.current_path(), "/d");
    assert_eq!(watcher.watch("/y".to_string()), Ok(()));
    assert_eq!(watcher.current_path(), "/y");
}

#[test]
fn scripted_watcher_hands_out_changes_oldest_first() {
    let mut watcher = ScriptedWatcher::new("/d".to_string());
    assert_eq!(watcher.look_for_changes(), None);
    watcher.push(Change::Remove("/d/a".to_string()));
    watcher.push(Change::Modify("/d/b".to_string()));
    assert_eq!(watcher.look_for_changes(), Some(Change::Remove("/d/a".to_string())));
    assert_eq!(watcher.look_for_changes(), Some(Change::Modify("/d/b".to_string())));
    assert_eq!(watcher.look_for_changes(), None);
}

#[test]
fn one_change_is_applied_per_poll() {
    let mut explorer = explorer_on("/d", &["/d/a", "/d/b"]);
    explorer.watcher.push(Change::Remove("/d/b".to_string()));
    explorer.watcher.push(Change::Rename("/d/a".to_string(), "/d/a2".to_string()));
    explorer.watcher.push(Change::Create(CreateKind::File, "/d/c".to_string()));
    assert!(!explorer.poll_one_change());
    assert_eq!(explorer.child_directories, vec![entry("/d/a", false)]);
    assert!(!explorer.poll_one_change());
    assert_eq!(explorer.child_directories, vec![entry("/d/a2", false)]);
    assert!(!explorer.poll_one_change());
    assert_eq!(explorer.child_directories, vec![entry("/d/a2", false), entry("/d/c", false)]);
    assert!(!explorer.poll_one_change());
    assert_eq!(explorer.child_directories, vec![entry("/d/a2", false), entry("/d/c", false)]);
    assert!(!explorer.stale);
}

#[test]
fn unknown_change_asks_for_a_listing() {
    let mut explorer = explorer_on("/d", &["/d/a"]);
    explorer.watcher.push(Change::Unknown);
    assert!(explorer.poll_one_change());
    assert!(explorer.stale);
    assert_eq!(explorer.child_directories, vec![]);
}

#[test]
fn apply_polled_without_change_does_nothing() {
    let mut explorer = explorer_on("/d", &["/d/a"]);
    assert!(!explorer.apply_polled(None));
    assert_eq!(explorer.child_directories, vec![entry("/d/a", false)]);
    assert!(!explorer.apply_polled(Some(Change::Modify("/d/a".to_string()))));
    assert_eq!(explorer.child_directories, vec![entry("/d/a", false)]);
}

#[test]
fn selection_is_a_flag_on_the_entry() {
    let mut explorer = explorer_on("/d", &["/d/a", "/d/b"]);
    explorer.set_selected(1, true);
    assert_eq!(explorer.child_directories, vec![entry("/d/a", false), entry("/d/b", true)]);
    explorer.apply_polled(Some(Change::Remove("/d/a".to_string())));
    assert_eq!(explorer.child_directories, vec![entry("/d/b", true)]);
    explorer.set_selected(0, false);
    assert_eq!(explorer.child_directories, vec![entry("/d/b", false)]);
}

#[test]
fn errors_are_shown_oldest_first() {
    let mut explorer = explorer_on("/d", &[]);
    explorer.report_error("first".to_string());
    explorer.report_error("second".to_string());
    assert_eq!(explorer.current_error(), Some(&"first".to_string()));
    explorer.dismiss_error();
    assert_eq!(explorer.current_error(), Some(&"second".to_string()));
    explorer.dismiss_error();
    assert_eq!(explorer.current_error(), None);
    explorer.dismiss_error();
    assert_eq!(explorer.current_error(), None);
}

#[test]
fn delete_plans() {
    assert_eq!(delete_plan(PathProbe::Missing, Some(true)), DeletePlan::Nothing);
    assert_eq!(delete_plan(PathProbe::Missing, None), DeletePlan::Nothing);
    assert_eq!(delete_plan(PathProbe::File, None), DeletePlan::Nothing);
    assert_eq!(delete_plan(PathProbe::File, Some(true)), DeletePlan::Confirm);
    assert_eq!(delete_plan(PathProbe::File, Some(false)), DeletePlan::RemoveFile);
    assert_eq!(delete_plan(PathProbe::Directory, None), DeletePlan::Nothing);
    assert_eq!(delete_plan(PathProbe::Directory, Some(true)), DeletePlan::Confirm);
    assert_eq!(delete_plan(PathProbe::Directory, Some(false)), DeletePlan::RemoveDirectory);
}

#[test]
fn delete_of_something_full_opens_the_dialog() {
    let mut explorer = explorer_on("/d", &["/d/a"]);
    let plan = explorer.try_delete_item("/d/a".to_string(), PathProbe::File, Some(false));
    assert_eq!(plan, DeletePlan::RemoveFile);
    assert_eq!(explorer.delete_dialog, None);
    let plan = explorer.try_delete_item("/d/a".to_string(), PathProbe::Directory, Some(true));
    assert_eq!(plan, DeletePlan::Confirm);
    assert_eq!(explorer.delete_dialog, Some("/d/a".to_string()));
}

#[test]
fn confirmed_removals() {
    assert_eq!(confirmed_removal(false, PathProbe::File), Removal::Nothing);
    assert_eq!(confirmed_removal(false, PathProbe::Directory), Removal::Nothing);
    assert_eq!(confirmed_removal(true, PathProbe::File), Removal::File);
    assert_eq!(confirmed_removal(true, PathProbe::Directory), Removal::DirectoryTree);
    assert_eq!(confirmed_removal(true, PathProbe::Missing), Removal::Nothing);
}

#[test]
fn actions_about_the_selection_stay_in_the_browser() {
    let mut explorer = explorer_on("/d", &["/d/a", "/d/b"]);
    assert_eq!(explorer.handle_action(FileListAction::Select(1)), DiskRequest::Nothing);
    assert_eq!(explorer.child_directories, vec![entry("/d/a", false), entry("/d/b", true)]);
    assert_eq!(explorer.handle_action(FileListAction::Select(0)), DiskRequest::Nothing);
    assert_eq!(explorer.child_directories, vec![entry("/d/a", true), entry("/d/b", true)]);
    assert_eq!(explorer.handle_action(FileListAction::Deselect(1)), DiskRequest::Nothing);
    assert_eq!(explorer.child_directories, vec![entry("/d/a", true), entry("/d/b", false)]);
}

#[test]
fn other_actions_go_to_the_disk() {
    let mut explorer = explorer_on("/d", &["/d/a"]);
    assert_eq!(
        explorer.handle_action(FileListAction::Open("/d/a".to_string())),
        DiskRequest::Open("/d/a".to_string())
    );
    assert_eq!(
        explorer.handle_action(FileListAction::Delete("/d/a".to_string())),
        DiskRequest::Delete("/d/a".to_string())
    );
    assert_eq!(
        explorer.handle_action(FileListAction::Rename("/d/a".to_string(), "b".to_string())),
        DiskRequest::Rename("/d/a".to_string(), "b".to_string())
    );
    let file = NewItem { kind: ItemKind::File, name: "n.txt".to_string() };
    assert_eq!(
        explorer.handle_action(FileListAction::Create(file)),
        DiskRequest::CreateFile("n.txt".to_string())
    );
    let directory = NewItem { kind: ItemKind::Directory, name: "sub".to_string() };
    assert_eq!(
        explorer.handle_action(FileListAction::Create(directory)),
        DiskRequest::CreateDirectory("sub".to_string())
    );
    assert_eq!(explorer.child_directories, vec![entry("/d/a", false)]);
}

#[test]
fn scripted_watcher_keeps_its_queue_through_a_switch() {
    let mut watcher = ScriptedWatcher::new("/d".to_string());
    watcher.push(Change::Unknown);
    watcher.refuse("/x".to_string());
    assert!(watcher.watch("/x".to_string()).is_err());
    assert_eq!(watcher.watch("/e".to_string()), Ok(()));
    watcher.push(Change::Remove("/e/a".to_string()));
    assert_eq!(watcher.look_for_changes(), Some(Change::Unknown));
    assert_eq!(watcher.look_for_changes(), Some(Change::Remove("/e/a".to_string())));
    assert_eq!(watcher.look_for_changes(), None);
    assert_eq!(watcher.current_path(), "/e");
}

#[test]
fn settled_change_of_directory_follows_the_watch() {
    let mut explorer = explorer_on("/d", &["/d/a", "/d/b"]);
    explorer.set_selected(0, true);
    let failed = explorer.settle_change_dir("/e".to_string(), Err("no such directory".to_string()));
    assert_eq!(failed, Err("no such directory".to_string()));
    assert_eq!(explorer.directory, "/d");
    assert_eq!(explorer.child_directories, vec![entry("/d/a", true), entry("/d/b", false)]);
    assert!(!explorer.stale);
    assert_eq!(explorer.settle_change_dir("/e".to_string(), Ok(())), Ok(()));
    assert_eq!(explorer.directory, "/e");
    assert_eq!(explorer.child_directories, vec![]);
    assert!(explorer.stale);
}

#[test]
fn closing_the_delete_dialog_hands_back_its_entry() {
    let mut explorer = explorer_on("/d", &["/d/a"]);
    assert_eq!(explorer.close_delete_dialog(), None);
    explorer.try_delete_item("/d/a".to_string(), PathProbe::Directory, Some(true));
    assert_eq!(explorer.close_delete_dialog(), Some("/d/a".to_string()));
    assert_eq!(explorer.delete_dialog, None);
    assert_eq!(explorer.close_delete_dialog(), None);
    assert_eq!(explorer.child_directories, vec![entry("/d/a", false)]);
}
