use elp_ide::Analysis;
use elp_ide::AnalysisHost;
use elp_ide::AppData;
use elp_ide::AppType;
use elp_ide::Cancelled;
use elp_ide::Change;
use elp_ide::Edit;
use elp_ide::EditOutcome;
use elp_ide::FileId;
use elp_ide::ModuleIndex;
use elp_ide::ModuleName;
use elp_ide::Phase;
use elp_ide::ProjectData;
use elp_ide::ProjectId;
use elp_ide::SourceRootId;
use std::sync::Arc;

fn project_change() -> Change {
    let mut index = ModuleIndex::new();
    index.insert(FileId(1), ModuleName::new("lists"));
    index.insert(FileId(2), ModuleName::new("maps"));
    let mut change = Change::new();
    change.push(Edit::SetFileSourceRoot { file: FileId(1), source_root: SourceRootId(10) });
    change.push(Edit::SetFileSourceRoot { file: FileId(2), source_root: SourceRootId(10) });
    change.push(Edit::SetAppData {
        source_root: SourceRootId(10),
        app: Some(AppData { project_id: ProjectId(100), app_type: AppType::App }),
    });
    change.push(Edit::SetProjectData {
        project: ProjectId(100),
        data: Arc::new(ProjectData {
            source_roots: vec![SourceRootId(10)],
            root_dir: String::from("/src/stdlib"),
        }),
    });
    change.push(Edit::SetModuleIndex { project: ProjectId(100), index: Arc::new(index) });
    change.push(Edit::SetFileText {
        file: FileId(1),
        text: Arc::new(String::from("-module(lists).\nok.\n")),
    });
    change
}

fn loaded_host() -> AnalysisHost {
    let mut host = AnalysisHost::default();
    host.raw_database_mut().apply_change(&project_change());
    host
}

fn rename_change() -> Change {
    let mut index = ModuleIndex::new();
    index.insert(FileId(1), ModuleName::new("lists2"));
    let mut change = Change::new();
    change.push(Edit::SetModuleIndex { project: ProjectId(100), index: Arc::new(index) });
    change
}

fn deferred(outcome: EditOutcome) -> Change {
    match outcome {
        EditOutcome::Deferred(change) => change,
        EditOutcome::Applied => panic!("the edit was applied while a snapshot was outstanding"),
    }
}

#[test]
fn edit_cancels_running_query_and_next_snapshot_succeeds() {
    let mut host = loaded_host();
    let s1 = host.analysis();
    assert_eq!(s1.generation(), 0);
    // The query has started: its first poll passes.
    assert_eq!(s1.poll(&host), Ok(()));

    let change = deferred(host.apply_edit(Change::new()));
    assert!(host.is_cancelling());
    assert_eq!(host.generation(), 0);

    // At its next poll the query is told to stop.
    assert_eq!(s1.poll(&host), Err(Cancelled));
    assert_eq!(s1.module_name(&host, FileId(1)), Err(Cancelled));
    host.release(s1);

    assert_eq!(host.apply_edit(change), EditOutcome::Applied);
    let s2 = host.analysis();
    assert_eq!(s2.generation(), 1);
    assert_eq!(host.generation(), 1);
    assert_eq!(s2.module_name(&host, FileId(1)), Ok(Some(ModuleName::new("lists"))));
}

#[test]
fn two_snapshots_without_edit_agree() {
    let mut host = loaded_host();
    let s1 = host.analysis();
    let s2 = host.analysis();
    assert_eq!(s1.generation(), 0);
    assert_eq!(s2.generation(), 0);
    let r1 = s1.module_file_id(&host, ProjectId(100), "maps");
    let r2 = s2.module_file_id(&host, ProjectId(100), "maps");
    assert_eq!(r1, Ok(Some(FileId(2))));
    assert_eq!(r1, r2);
    assert_eq!(s1.line_index(&host, FileId(1)), s2.line_index(&host, FileId(1)));
    assert_eq!(s1.file_app_type(&host, FileId(2)), Ok(Some(AppType::App)));
    assert_eq!(s2.file_app_type(&host, FileId(2)), Ok(Some(AppType::App)));
}

#[test]
fn edit_without_snapshots_completes_at_once() {
    let mut host = loaded_host();
    assert_eq!(host.holders(), 0);
    assert_eq!(host.apply_edit(rename_change()), EditOutcome::Applied);
    assert_eq!(host.holders(), 0);
    assert_eq!(host.generation(), 1);
    assert!(!host.is_cancelling());
    assert_eq!(
        host.raw_database().module_index(ProjectId(100)).file_for_module("lists2"),
        Some(FileId(1))
    );
}

#[test]
fn reader_that_never_lets_go_keeps_the_edit_waiting() {
    let mut host = loaded_host();
    let stubborn = host.analysis();
    let mut change = rename_change();
    for _ in 0..5 {
        let outcome = host.apply_edit(change);
        change = deferred(outcome);
        assert_eq!(change, rename_change());
        assert_eq!(host.generation(), 0);
        assert!(host.is_cancelling());
        assert_eq!(host.holders(), 1);
        assert_eq!(
            host.raw_database().module_index(ProjectId(100)).file_for_module("lists"),
            Some(FileId(1))
        );
    }
    // The reader was told at every poll.
    assert_eq!(stubborn.poll(&host), Err(Cancelled));
    host.release(stubborn);
    assert_eq!(host.apply_edit(change), EditOutcome::Applied);
}

#[test]
fn snapshot_reads_one_generation_between_other_operations() {
    let mut host = loaded_host();
    let reader = host.analysis();
    let first = reader.module_index(&host, ProjectId(100)).unwrap();

    let other = host.analysis();
    let copy = other.clone(&mut host);
    host.release(other);
    let second = reader.module_index(&host, ProjectId(100)).unwrap();
    host.release(copy);
    let third = reader.module_index(&host, ProjectId(100)).unwrap();

    assert_eq!(first, second);
    assert_eq!(second, third);
    assert_eq!(reader.generation(), 0);
    assert_eq!(host.generation(), 0);

    // An edit cannot slip in while the reader holds its snapshot.
    let change = deferred(host.apply_edit(rename_change()));
    assert_eq!(reader.module_index(&host, ProjectId(100)), Err(Cancelled));
    assert_eq!(host.raw_database().module_index(ProjectId(100)), first);
    host.release(reader);
    assert_eq!(host.apply_edit(change), EditOutcome::Applied);
    let fresh = host.analysis();
    let renamed = fresh.module_index(&host, ProjectId(100)).unwrap();
    assert_eq!(renamed.file_for_module("lists2"), Some(FileId(1)));
    assert_eq!(renamed.file_for_module("lists"), None);
    // What was read before the edit is still what it was.
    assert_eq!(first.file_for_module("lists"), Some(FileId(1)));
}

#[test]
fn cancellation_stays_for_every_snapshot_of_the_generation() {
    let mut host = loaded_host();
    let a = host.analysis();
    let b = a.clone(&mut host);
    let done = a.project_data(&host, FileId(1)).unwrap();

    let change = deferred(host.apply_edit(rename_change()));
    assert_eq!(a.poll(&host), Err(Cancelled));
    assert_eq!(b.poll(&host), Err(Cancelled));
    host.release(a);
    // One snapshot is left: nothing lowers the flag again.
    assert_eq!(b.poll(&host), Err(Cancelled));
    assert_eq!(b.line_index(&host, FileId(1)), Err(Cancelled));
    let late = host.analysis();
    assert_eq!(late.poll(&host), Err(Cancelled));
    let change = deferred(host.apply_edit(change));
    assert_eq!(b.project_data(&host, FileId(1)), Err(Cancelled));
    // A result that was complete before the flag went up stays readable.
    assert_eq!(done.unwrap().root_dir, "/src/stdlib");
    host.release(b);
    host.release(late);
    assert_eq!(host.apply_edit(change), EditOutcome::Applied);
}

#[test]
fn snapshot_of_superseded_generation_is_never_admitted() {
    let mut twin = loaded_host();
    let stale: Analysis = twin.analysis();

    let mut host = loaded_host();
    assert_eq!(host.apply_edit(Change::new()), EditOutcome::Applied);
    assert_eq!(host.phase_of(stale.generation()), Some(Phase::Superseded));
    assert!(!host.admits(&stale));
    assert_eq!(stale.poll(&host), Err(Cancelled));
    assert_eq!(stale.file_app_type(&host, FileId(1)), Err(Cancelled));

    // A clone of a dead snapshot is as dead, and counts for nothing.
    let copy = stale.clone(&mut host);
    assert_eq!(copy, stale);
    assert_eq!(host.holders(), 0);
    assert_eq!(host.issued(), 0);
    assert_eq!(copy.poll(&host), Err(Cancelled));
    host.release(copy);
    host.release(stale);
    assert_eq!(host.holders(), 0);
    assert_eq!(host.generation(), 1);
}

#[test]
fn clones_are_counted_and_released_exactly_once() {
    let mut host = loaded_host();
    let keeper = host.analysis();
    assert_eq!(host.holders(), 1);

    let first = host.analysis();
    let second = first.clone(&mut host);
    let third = second.clone(&mut host);
    let fourth = first.clone(&mut host);
    assert_eq!(host.holders(), 5);
    assert_eq!(host.issued(), 5);
    assert_eq!(second.generation(), first.generation());
    assert_eq!(third.generation(), first.generation());
    assert_ne!(second, first);
    assert_ne!(third, second);

    host.release(third);
    assert_eq!(host.holders(), 4);
    host.release(first);
    assert_eq!(host.holders(), 3);
    host.release(fourth);
    assert_eq!(host.holders(), 2);
    host.release(second);
    assert_eq!(host.holders(), 1);
    assert!(host.admits(&keeper));
    assert_eq!(keeper.poll(&host), Ok(()));
    host.release(keeper);
    assert_eq!(host.holders(), 0);
    assert_eq!(host.apply_edit(Change::new()), EditOutcome::Applied);
}

#[test]
fn second_release_of_the_same_snapshot_releases_nothing() {
    let mut host = AnalysisHost::default();
    let mut twin = AnalysisHost::default();
    let other = host.analysis();
    let _ = twin.analysis();
    let handle = host.analysis();
    let same_handle = twin.analysis();
    assert_eq!(handle, same_handle);

    host.release(handle);
    assert_eq!(host.holders(), 1);
    host.release(same_handle);
    assert_eq!(host.holders(), 1);
    assert!(host.admits(&other));
}

#[test]
fn edit_completes_once_the_outstanding_snapshots_are_released() {
    let mut host = loaded_host();
    let mut handles = vec![host.analysis(), host.analysis(), host.analysis()];
    let mut change = rename_change();
    let mut attempts = 0;
    loop {
        attempts += 1;
        match host.apply_edit(change) {
            EditOutcome::Applied => break,
            EditOutcome::Deferred(back) => {
                change = back;
                let reader = handles.pop().unwrap();
                // One poll is enough for the reader to learn of the edit.
                assert_eq!(reader.poll(&host), Err(Cancelled));
                host.release(reader);
            },
        }
    }
    assert_eq!(attempts, 4);
    assert!(handles.is_empty());
    assert_eq!(host.generation(), 1);
    assert!(!host.is_cancelling());
    let reader = host.analysis();
    assert_eq!(reader.module_file_id(&host, ProjectId(100), "lists2"), Ok(Some(FileId(1))));
}

#[test]
fn phases_advance_from_active_to_cancelling_to_superseded() {
    let mut host = AnalysisHost::default();
    assert_eq!(host.phase_of(0), Some(Phase::Active));
    assert_eq!(host.phase_of(1), None);
    let reader = host.analysis();
    let change = deferred(host.apply_edit(Change::new()));
    assert_eq!(host.phase_of(0), Some(Phase::Cancelling));
    assert_eq!(host.phase_of(1), None);
    host.release(reader);
    assert_eq!(host.apply_edit(change), EditOutcome::Applied);
    assert_eq!(host.phase_of(0), Some(Phase::Superseded));
    assert_eq!(host.phase_of(1), Some(Phase::Active));
    assert_eq!(host.phase_of(2), None);
}

#[test]
fn new_host_starts_at_generation_zero_without_snapshots() {
    let host = AnalysisHost::default();
    assert_eq!(host.generation(), 0);
    assert_eq!(host.holders(), 0);
    assert_eq!(host.issued(), 0);
    assert!(!host.is_cancelling());
    assert_eq!(host.raw_database().file_source_root(FileId(1)), None);
}

#[test]
fn snapshot_leaves_the_facts_alone() {
    let mut host = loaded_host();
    let before = host.raw_database().module_index(ProjectId(100));
    let reader = host.analysis();
    let copy = reader.clone(&mut host);
    assert_eq!(host.raw_database().module_index(ProjectId(100)), before);
    assert_eq!(host.generation(), 0);
    host.release(copy);
    host.release(reader);
    assert_eq!(host.raw_database().module_index(ProjectId(100)), before);
}

#[test]
fn raw_access_keeps_the_generation() {
    let mut host = AnalysisHost::default();
    host.raw_database_mut().apply(&Edit::SetFileSourceRoot {
        file: FileId(7),
        source_root: SourceRootId(3),
    });
    assert_eq!(host.generation(), 0);
    assert!(!host.is_cancelling());
    assert_eq!(host.raw_database().file_source_root(FileId(7)), Some(SourceRootId(3)));
    let reader = host.analysis();
    assert_eq!(reader.generation(), 0);
    assert_eq!(reader.poll(&host), Ok(()));
}

#[test]
fn edits_apply_in_the_order_of_the_calls() {
    let mut host = AnalysisHost::default();
    let mut first = Change::new();
    first.push(Edit::SetFileSourceRoot { file: FileId(1), source_root: SourceRootId(1) });
    let mut second = Change::new();
    second.push(Edit::SetFileSourceRoot { file: FileId(1), source_root: SourceRootId(2) });
    assert_eq!(host.apply_edit(first), EditOutcome::Applied);
    assert_eq!(host.apply_edit(second), EditOutcome::Applied);
    assert_eq!(host.generation(), 2);
    assert_eq!(host.raw_database().file_source_root(FileId(1)), Some(SourceRootId(2)));
}
