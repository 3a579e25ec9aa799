use dirmirror::directory::Directory;
use dirmirror::events::{removal_for, ChangeEvent, MirrorOp, Removal};
use dirmirror::path::{join, starts_with, strip_prefix, MappingError};
use dirmirror::reconcile::{contains_name, plan_sync, Entry, Step, StepKind};
use dirmirror::watcher::{DirectoryWatcher, Phase};

fn p(parts: &[&str]) -> Vec<String> {
    parts.iter().map(|s| s.to_string()).collect()
}

fn file(name: &str) -> Entry {
    Entry { name: name.to_string(), is_dir: false }
}

fn dir(name: &str) -> Entry {
    Entry { name: name.to_string(), is_dir: true }
}

fn pair() -> Directory {
    Directory::new(p(&["home", "src"]), p(&["mnt", "backup"]))
}

fn steps(v: &[Step]) -> Vec<(String, StepKind)> {
    v.iter().map(|s| (s.name.clone(), s.kind)).collect()
}

#[test]
fn starts_with_checks_whole_components() {
    assert!(starts_with(&p(&["a", "b"]), &p(&["a", "b", "c"])));
    assert!(starts_with(&p(&[]), &p(&["a"])));
    assert!(starts_with(&p(&["a"]), &p(&["a"])));
    assert!(!starts_with(&p(&["a", "b"]), &p(&["a", "bc"])));
    assert!(!starts_with(&p(&["a", "b"]), &p(&["a"])));
}

#[test]
fn strip_prefix_gives_rest() {
    assert_eq!(strip_prefix(&p(&["a"]), &p(&["a", "b", "c"])), Some(p(&["b", "c"])));
    assert_eq!(strip_prefix(&p(&["a"]), &p(&["a"])), Some(p(&[])));
    assert_eq!(strip_prefix(&p(&["x"]), &p(&["a", "b"])), None);
}

#[test]
fn join_appends_components() {
    assert_eq!(join(&p(&["t"]), &p(&["b", "c"])), p(&["t", "b", "c"]));
    assert_eq!(join(&p(&[]), &p(&[])), p(&[]));
}

#[test]
fn build_target_path_maps_under_target() {
    let d = pair();
    assert_eq!(
        d.build_target_path(&p(&["home", "src", "notes", "a.txt"])),
        Ok(p(&["mnt", "backup", "notes", "a.txt"]))
    );
    assert_eq!(d.build_target_path(&p(&["home", "src"])), Ok(p(&["mnt", "backup"])));
}

#[test]
fn build_target_path_refuses_outside_source() {
    let d = pair();
    assert_eq!(d.build_target_path(&p(&["home", "other", "a.txt"])), Err(MappingError::NotUnderRoot));
    assert_eq!(d.build_target_path(&p(&["home"])), Err(MappingError::NotUnderRoot));
}

#[test]
fn mapped_path_round_trips() {
    let d = pair();
    let src = p(&["home", "src", "x", "y.txt"]);
    let mapped = d.build_target_path(&src).unwrap();
    assert_eq!(strip_prefix(&d.target, &mapped), strip_prefix(&d.source, &src));
    assert_eq!(strip_prefix(&d.target, &mapped), Some(p(&["x", "y.txt"])));
}

#[test]
fn created_file_is_copied_to_mapped_path() {
    let d = pair();
    let op = d.translate(&ChangeEvent::Created(p(&["home", "src", "f.txt"])), false).unwrap();
    match op {
        MirrorOp::CopyFile { from, to } => {
            assert_eq!(from, p(&["home", "src", "f.txt"]));
            assert_eq!(to, p(&["mnt", "backup", "f.txt"]));
        }
        other => panic!("unexpected {:?}", other),
    }
}

#[test]
fn created_directory_is_created() {
    let d = pair();
    let op = d.translate(&ChangeEvent::Created(p(&["home", "src", "sub"])), true).unwrap();
    match op {
        MirrorOp::CreateDir { path } => assert_eq!(path, p(&["mnt", "backup", "sub"])),
        other => panic!("unexpected {:?}", other),
    }
}

#[test]
fn modified_file_is_copied_and_directory_skipped() {
    let d = pair();
    let op = d.translate(&ChangeEvent::Modified(p(&["home", "src", "f.txt"])), false).unwrap();
    match op {
        MirrorOp::CopyFile { from, to } => {
            assert_eq!(from, p(&["home", "src", "f.txt"]));
            assert_eq!(to, p(&["mnt", "backup", "f.txt"]));
        }
        other => panic!("unexpected {:?}", other),
    }
    let op = d.translate(&ChangeEvent::Modified(p(&["home", "src", "sub"])), true).unwrap();
    assert!(matches!(op, MirrorOp::Skip));
}

#[test]
fn permissions_are_propagated() {
    let d = pair();
    let op = d.translate(&ChangeEvent::PermissionsChanged(p(&["home", "src", "run.sh"])), false).unwrap();
    match op {
        MirrorOp::SetPermissions { from, to } => {
            assert_eq!(from, p(&["home", "src", "run.sh"]));
            assert_eq!(to, p(&["mnt", "backup", "run.sh"]));
        }
        other => panic!("unexpected {:?}", other),
    }
}

#[test]
fn removed_entry_is_removed_from_mapped_path() {
    let d = pair();
    let op = d.translate(&ChangeEvent::Removed(p(&["home", "src", "sub"])), false).unwrap();
    match op {
        MirrorOp::Remove { path } => assert_eq!(path, p(&["mnt", "backup", "sub"])),
        other => panic!("unexpected {:?}", other),
    }
}

#[test]
fn removal_of_directory_is_recursive() {
    assert_eq!(removal_for(true, true), Removal::DirAll);
    assert_eq!(removal_for(true, false), Removal::File);
    assert_eq!(removal_for(false, true), Removal::Nothing);
    assert_eq!(removal_for(false, false), Removal::Nothing);
}

#[test]
fn rename_moves_between_mapped_paths() {
    let d = pair();
    let ev = ChangeEvent::Renamed(p(&["home", "src", "old.txt"]), p(&["home", "src", "new", "n.txt"]));
    match d.translate(&ev, false).unwrap() {
        MirrorOp::Rename { from, to } => {
            assert_eq!(from, p(&["mnt", "backup", "old.txt"]));
            assert_eq!(to, p(&["mnt", "backup", "new", "n.txt"]));
        }
        other => panic!("unexpected {:?}", other),
    }
}

#[test]
fn rename_out_of_source_is_refused() {
    let d = pair();
    let ev = ChangeEvent::Renamed(p(&["home", "src", "old.txt"]), p(&["tmp", "n.txt"]));
    assert_eq!(d.translate(&ev, false).err(), Some(MappingError::NotUnderRoot));
    let ev = ChangeEvent::Created(p(&["elsewhere", "f"]));
    assert_eq!(d.translate(&ev, false).err(), Some(MappingError::NotUnderRoot));
}

#[test]
fn watch_error_is_reported_only() {
    let d = pair();
    match d.translate(&ChangeEvent::WatchError("queue overflow".to_string()), false).unwrap() {
        MirrorOp::Report { detail } => assert_eq!(detail, "queue overflow"),
        other => panic!("unexpected {:?}", other),
    }
}

#[test]
fn contains_name_finds_entries() {
    let entries = vec![file("a"), dir("b")];
    assert!(contains_name(&entries, &"b".to_string()));
    assert!(!contains_name(&entries, &"c".to_string()));
    assert!(!contains_name(&vec![], &"a".to_string()));
}

#[test]
fn plan_removes_extras_then_creates_missing() {
    let source = vec![file("a"), dir("docs"), file("z")];
    let target = vec![file("a"), dir("old"), file("x")];
    let plan = plan_sync(&source, &target);
    assert_eq!(
        steps(&plan),
        vec![
            ("old".to_string(), StepKind::RemoveDir),
            ("x".to_string(), StepKind::RemoveFile),
            ("docs".to_string(), StepKind::CreateDir),
            ("z".to_string(), StepKind::CopyFile),
        ]
    );
}

#[test]
fn plan_is_empty_when_already_mirrored() {
    let source = vec![file("a"), dir("b")];
    let target = vec![file("a"), dir("b")];
    assert!(plan_sync(&source, &target).is_empty());
    assert!(plan_sync(&vec![], &vec![]).is_empty());
}

#[test]
fn second_reconciliation_needs_nothing() {
    let source = vec![file("a"), dir("b"), file("c")];
    let target = vec![file("c"), file("d")];
    let first = plan_sync(&source, &target);
    let mut names: Vec<String> = target.iter().map(|e| e.name.clone()).collect();
    for s in &first {
        match s.kind {
            StepKind::RemoveFile | StepKind::RemoveDir => names.retain(|n| *n != s.name),
            StepKind::CreateDir | StepKind::CopyFile => names.push(s.name.clone()),
        }
    }
    names.sort();
    assert_eq!(names, vec!["a".to_string(), "b".to_string(), "c".to_string()]);
    let after: Vec<Entry> = source.clone();
    assert!(plan_sync(&source, &after).is_empty());
}

#[test]
fn two_files_into_empty_target_then_removal() {
    let d = pair();
    let source = vec![file("a.txt"), file("b.txt")];
    let plan = plan_sync(&source, &vec![]);
    assert_eq!(
        steps(&plan),
        vec![("a.txt".to_string(), StepKind::CopyFile), ("b.txt".to_string(), StepKind::CopyFile)]
    );
    let op = d.translate(&ChangeEvent::Removed(p(&["home", "src", "a.txt"])), false).unwrap();
    match op {
        MirrorOp::Remove { path } => assert_eq!(path, p(&["mnt", "backup", "a.txt"])),
        other => panic!("unexpected {:?}", other),
    }
    let after_removal = vec![file("b.txt")];
    let target_now = vec![file("a.txt"), file("b.txt")];
    assert_eq!(steps(&plan_sync(&after_removal, &target_now)), vec![("a.txt".to_string(), StepKind::RemoveFile)]);
}

#[test]
fn failed_step_does_not_stop_the_pass() {
    let mut w = DirectoryWatcher::new(pair());
    assert_eq!(w.phase, Phase::Starting);
    w.begin(Ok((vec![file("a"), file("b"), file("c")], vec![])));
    assert_eq!(w.phase, Phase::Reconciling);
    assert_eq!(w.next_step().unwrap().name, "a");
    w.record(Err("disk full".to_string()));
    assert_eq!(w.phase, Phase::Reconciling);
    assert_eq!(w.next_step().unwrap().name, "b");
    w.record(Ok(()));
    assert_eq!(w.next_step().unwrap().name, "c");
    w.record(Ok(()));
    assert_eq!(w.phase, Phase::Watching);
    assert!(w.next_step().is_none());
    assert_eq!(w.done, 3);
    assert_eq!(w.failures.len(), 1);
    assert_eq!(w.failures[0].0.name, "a");
    assert_eq!(w.failures[0].1, "disk full");
}

#[test]
fn empty_plan_goes_straight_to_watching() {
    let mut w = DirectoryWatcher::new(pair());
    w.begin(Ok((vec![file("a")], vec![file("a")])));
    assert_eq!(w.phase, Phase::Watching);
    assert!(w.next_step().is_none());
}

#[test]
fn listing_failure_goes_to_watching() {
    let mut w = DirectoryWatcher::new(pair());
    w.begin(Err("no such directory".to_string()));
    assert_eq!(w.phase, Phase::Watching);
    assert!(w.steps.is_empty());
}

#[test]
fn watching_handles_events_and_stops() {
    let mut w = DirectoryWatcher::new(pair());
    w.begin(Ok((vec![], vec![])));
    let op = w.handle(&ChangeEvent::Removed(p(&["home", "src", "gone"])), false).unwrap();
    match op {
        MirrorOp::Remove { path } => assert_eq!(path, p(&["mnt", "backup", "gone"])),
        other => panic!("unexpected {:?}", other),
    }
    w.stop();
    assert_eq!(w.phase, Phase::Stopped);
}
