use std::collections::VecDeque;

use filecase::multi::open_read_outcome;
use filecase::multi::save_target_check;
use filecase::multi::save_write_outcome;
use filecase::multi::MAX_FILE_SIZE;
use filecase::multi::MAX_OPEN_FILES;
use filecase::MultiArchiver;
use filecase::MultiArchiverAction;
use filecase::MultiEffect;
use filecase::MultiEvent;
use filecase::OpenedFile;

const NOW: u64 = 1_700_000_000;

/// Feeds one action in, routes every re-enqueued action back through the
/// engine (as the consumer loop would), and collects the notifications and
/// the worker spawns that came out.
fn drain(
    eng: &mut MultiArchiver,
    first: MultiArchiverAction,
) -> (Vec<MultiEvent>, Vec<MultiEffect>) {
    let mut queue: VecDeque<MultiArchiverAction> = VecDeque::new();
    queue.push_back(first);
    let mut events = Vec::new();
    let mut spawns = Vec::new();
    while let Some(a) = queue.pop_front() {
        for eff in eng.step(a, NOW) {
            match eff {
                MultiEffect::Notify(e) => events.push(e),
                MultiEffect::Enqueue(a2) => queue.push_back(a2),
                other => spawns.push(other),
            }
        }
    }
    (events, spawns)
}

/// Runs the open worker's decision for a successful read and feeds the
/// resulting action through the engine.
fn open_file(eng: &mut MultiArchiver, path: &str, content: &str) -> Vec<MultiEvent> {
    let (_, spawns) = drain(eng, MultiArchiverAction::OpenRequest(path.to_string()));
    assert_eq!(spawns.len(), 1);
    let (wpath, windex) = match spawns.into_iter().next().unwrap() {
        MultiEffect::SpawnOpen { path, index } => (path, index),
        _ => panic!("expected an open worker"),
    };
    let action = open_read_outcome(wpath, Ok(content.to_string()), windex, NOW);
    let (events, _) = drain(eng, action);
    events
}

fn assert_indices_contiguous(eng: &MultiArchiver) {
    for (i, f) in eng.files.iter().enumerate() {
        assert_eq!(f.index, i);
    }
}

fn count_errors(events: &[MultiEvent], text: &str) -> usize {
    events
        .iter()
        .filter(|e| matches!(e, MultiEvent::Error(m) if m == text))
        .count()
}

#[test]
fn new_request_appends_untitled() {
    let mut eng = MultiArchiver::new("ext".to_string());
    let (events, _) = drain(&mut eng, MultiArchiverAction::NewRequest);
    assert_eq!(eng.files.len(), 1);
    assert_eq!(eng.files[0].name, "Untitled 1.ext");
    assert!(eng.files[0].path.is_none());
    assert!(eng.files[0].saved);
    assert_eq!(eng.files[0].index, 0);
    assert_eq!(events.len(), 1);
    match &events[0] {
        MultiEvent::New(f) => assert_eq!(f.name, "Untitled 1.ext"),
        _ => panic!("expected a new-file notification"),
    }
}

#[test]
fn untitled_counter_takes_highest_plus_one() {
    let mut eng = MultiArchiver::new("ext".to_string());
    drain(&mut eng, MultiArchiverAction::NewRequest);
    drain(&mut eng, MultiArchiverAction::NewRequest);
    assert_eq!(eng.files[1].name, "Untitled 2.ext");
    // Closing the first leaves "Untitled 2.ext" as the highest in use.
    drain(&mut eng, MultiArchiverAction::CloseRequest(0, true));
    drain(&mut eng, MultiArchiverAction::NewRequest);
    assert_eq!(eng.files[1].name, "Untitled 3.ext");
}

#[test]
fn index_contiguity_over_opens_and_closes() {
    let mut eng = MultiArchiver::new("ext".to_string());
    open_file(&mut eng, "/a.ext", "a");
    assert_indices_contiguous(&eng);
    open_file(&mut eng, "/b.ext", "b");
    assert_indices_contiguous(&eng);
    drain(&mut eng, MultiArchiverAction::NewRequest);
    assert_indices_contiguous(&eng);
    drain(&mut eng, MultiArchiverAction::CloseRequest(1, true));
    assert_indices_contiguous(&eng);
    open_file(&mut eng, "/c.ext", "c");
    assert_indices_contiguous(&eng);
    drain(&mut eng, MultiArchiverAction::CloseRequest(0, true));
    assert_indices_contiguous(&eng);
    drain(&mut eng, MultiArchiverAction::CloseRequest(1, true));
    assert_indices_contiguous(&eng);
}

#[test]
fn seventeenth_new_is_one_admission_error() {
    let mut eng = MultiArchiver::new("ext".to_string());
    for _ in 0..MAX_OPEN_FILES {
        drain(&mut eng, MultiArchiverAction::NewRequest);
    }
    assert_eq!(eng.files.len(), 16);
    let before: Vec<String> = eng.files.iter().map(|f| f.name.clone()).collect();
    let (events, _) = drain(&mut eng, MultiArchiverAction::NewRequest);
    assert_eq!(eng.files.len(), 16);
    let after: Vec<String> = eng.files.iter().map(|f| f.name.clone()).collect();
    assert_eq!(before, after);
    assert_eq!(events.len(), 1);
    assert_eq!(count_errors(&events, "Maximum number of files opened"), 1);
}

#[test]
fn seventeenth_open_is_one_admission_error() {
    let mut eng = MultiArchiver::new("ext".to_string());
    for i in 0..MAX_OPEN_FILES {
        open_file(&mut eng, &format!("/f{}.ext", i), "x");
    }
    assert_eq!(eng.files.len(), 16);
    let (events, spawns) = drain(&mut eng, MultiArchiverAction::OpenRequest("/g.ext".to_string()));
    assert_eq!(eng.files.len(), 16);
    assert!(spawns.is_empty());
    assert_eq!(count_errors(&events, "File list limit reached"), 1);
    assert_eq!(events.len(), 1);
}

#[test]
fn oversized_file_never_enters_registry() {
    let mut eng = MultiArchiver::new("ext".to_string());
    let (_, spawns) = drain(&mut eng, MultiArchiverAction::OpenRequest("/big.ext".to_string()));
    assert_eq!(spawns.len(), 1);
    let big = "a".repeat(MAX_FILE_SIZE + 1);
    let action = open_read_outcome("/big.ext".to_string(), Ok(big), 0, NOW);
    let (events, _) = drain(&mut eng, action);
    assert_eq!(eng.files.len(), 0);
    assert_eq!(events.len(), 1);
    assert_eq!(count_errors(&events, "File extrapolates maximum size"), 1);
}

#[test]
fn file_at_size_limit_enters_registry() {
    let mut eng = MultiArchiver::new("ext".to_string());
    drain(&mut eng, MultiArchiverAction::OpenRequest("/ok.ext".to_string()));
    let exact = "a".repeat(MAX_FILE_SIZE);
    let action = open_read_outcome("/ok.ext".to_string(), Ok(exact), 0, NOW);
    drain(&mut eng, action);
    assert_eq!(eng.files.len(), 1);
}

#[test]
fn duplicate_open_reopens_existing_entry() {
    let mut eng = MultiArchiver::new("ext".to_string());
    open_file(&mut eng, "/dup.ext", "content");
    assert_eq!(eng.files.len(), 1);
    let stored = &eng.files[0];
    let (stored_name, stored_path, stored_content, stored_saved, stored_dt, stored_index) = (
        stored.name.clone(),
        stored.path.clone(),
        stored.content.clone(),
        stored.saved,
        stored.dt,
        stored.index,
    );
    let (events, spawns) = drain(
        &mut eng,
        MultiArchiverAction::OpenRequest("/dup.ext".to_string()),
    );
    assert_eq!(eng.files.len(), 1);
    assert!(spawns.is_empty());
    assert_eq!(events.len(), 1);
    match &events[0] {
        MultiEvent::Reopen(f) => {
            assert_eq!(f.name, stored_name);
            assert_eq!(f.path, stored_path);
            assert_eq!(f.content, stored_content);
            assert_eq!(f.saved, stored_saved);
            assert_eq!(f.dt, stored_dt);
            assert_eq!(f.index, stored_index);
        },
        _ => panic!("expected a reopen notification"),
    }
}

#[test]
fn sandbox_rejects_target_outside_prefix() {
    let mut eng = MultiArchiver::new("ext".to_string());
    drain(
        &mut eng,
        MultiArchiverAction::SetPrefix(Some("/home/u/proj".to_string())),
    );
    let (events, spawns) = drain(
        &mut eng,
        MultiArchiverAction::OpenRequest("/etc/passwd".to_string()),
    );
    assert!(spawns.is_empty());
    assert_eq!(eng.files.len(), 0);
    assert_eq!(
        count_errors(&events, "Cannot open file outside prefix /home/u/proj"),
        1
    );
    let (_, spawns) = drain(
        &mut eng,
        MultiArchiverAction::OpenRequest("/home/u/proj/a.txt".to_string()),
    );
    assert_eq!(spawns.len(), 1);
    assert!(matches!(
        &spawns[0],
        MultiEffect::SpawnOpen { path, index: 0 } if path == "/home/u/proj/a.txt"
    ));
}

#[test]
fn sandbox_rejects_save_outside_prefix() {
    let mut eng = MultiArchiver::new("ext".to_string());
    drain(&mut eng, MultiArchiverAction::NewRequest);
    drain(&mut eng, MultiArchiverAction::Select(Some(0)));
    drain(
        &mut eng,
        MultiArchiverAction::SetPrefix(Some("/home/u/proj".to_string())),
    );
    let (events, spawns) = drain(
        &mut eng,
        MultiArchiverAction::SaveRequest(Some("/etc/evil".to_string())),
    );
    assert!(spawns.is_empty());
    assert_eq!(
        count_errors(&events, "Cannot save file outside prefix /home/u/proj"),
        1
    );
}

#[test]
fn rename_on_first_save() {
    let mut eng = MultiArchiver::new("ext".to_string());
    drain(&mut eng, MultiArchiverAction::NewRequest);
    assert_eq!(eng.files[0].name, "Untitled 1.ext");
    drain(&mut eng, MultiArchiverAction::Select(Some(0)));
    let (_, spawns) = drain(
        &mut eng,
        MultiArchiverAction::SaveRequest(Some("/tmp/x.ext".to_string())),
    );
    assert_eq!(spawns.len(), 1);
    let (wpath, windex) = match spawns.into_iter().next().unwrap() {
        MultiEffect::SpawnSave { path, index } => (path, index),
        _ => panic!("expected a save worker"),
    };
    assert_eq!(windex, 0);
    let action = save_write_outcome(wpath, windex, Ok(()));
    let (events, _) = drain(&mut eng, action);
    assert_eq!(eng.files[0].name, "/tmp/x.ext");
    assert_eq!(eng.files[0].path.as_deref(), Some("/tmp/x.ext"));
    assert!(eng.files[0].saved);
    let renames = events
        .iter()
        .filter(|e| matches!(e, MultiEvent::NameChanged(0, p) if p == "/tmp/x.ext"))
        .count();
    assert_eq!(renames, 1);
    let in_recent = eng
        .recent
        .iter()
        .filter(|f| f.path.as_deref() == Some("/tmp/x.ext"))
        .count();
    assert_eq!(in_recent, 1);
}

#[test]
fn second_save_does_not_rename_again() {
    let mut eng = MultiArchiver::new("ext".to_string());
    drain(&mut eng, MultiArchiverAction::NewRequest);
    drain(&mut eng, MultiArchiverAction::Select(Some(0)));
    let (events, _) = drain(
        &mut eng,
        MultiArchiverAction::SaveSuccess(0, "/tmp/y.ext".to_string()),
    );
    assert!(events
        .iter()
        .any(|e| matches!(e, MultiEvent::NameChanged(0, _))));
    let (events, _) = drain(
        &mut eng,
        MultiArchiverAction::SaveSuccess(0, "/tmp/y.ext".to_string()),
    );
    assert!(!events
        .iter()
        .any(|e| matches!(e, MultiEvent::NameChanged(..))));
    assert_eq!(eng.recent.len(), 1);
}

#[test]
fn set_saved_transitions_fire_once() {
    let mut eng = MultiArchiver::new("ext".to_string());
    drain(&mut eng, MultiArchiverAction::NewRequest);
    assert!(eng.files[0].saved);
    // Already saved: a repeated "saved" notification is a no-op.
    let (events, _) = drain(&mut eng, MultiArchiverAction::SetSaved(0, true));
    assert_eq!(events.len(), 0);
    // Clean -> dirty fires once.
    let (events, _) = drain(&mut eng, MultiArchiverAction::SetSaved(0, false));
    assert_eq!(events.len(), 1);
    assert!(matches!(&events[0], MultiEvent::FileChanged(_)));
    // Dirty -> dirty fires nothing.
    let (events, _) = drain(&mut eng, MultiArchiverAction::SetSaved(0, false));
    assert_eq!(events.len(), 0);
    // Dirty -> clean fires once.
    let (events, _) = drain(&mut eng, MultiArchiverAction::SetSaved(0, true));
    assert_eq!(events.len(), 1);
    assert!(matches!(&events[0], MultiEvent::FilePersisted(_)));
    // Clean -> clean fires nothing.
    let (events, _) = drain(&mut eng, MultiArchiverAction::SetSaved(0, true));
    assert_eq!(events.len(), 0);
}

#[test]
fn close_reindexes_remaining_entries() {
    let mut eng = MultiArchiver::new("ext".to_string());
    open_file(&mut eng, "/a.ext", "a");
    open_file(&mut eng, "/b.ext", "b");
    open_file(&mut eng, "/c.ext", "c");
    assert_eq!(eng.files.len(), 3);
    let (events, _) = drain(&mut eng, MultiArchiverAction::CloseRequest(0, true));
    assert_eq!(eng.files.len(), 2);
    assert_eq!(eng.files[0].index, 0);
    assert_eq!(eng.files[0].name, "/b.ext");
    assert_eq!(eng.files[1].index, 1);
    assert_eq!(eng.files[1].name, "/c.ext");
    let closed_counts: Vec<usize> = events
        .iter()
        .filter_map(|e| match e {
            MultiEvent::Closed(f, n) => {
                assert_eq!(f.name, "/a.ext");
                Some(*n)
            },
            _ => None,
        })
        .collect();
    assert_eq!(closed_counts, vec![2]);
}

#[test]
fn stale_set_saved_after_close_is_ignored() {
    let mut eng = MultiArchiver::new("ext".to_string());
    open_file(&mut eng, "/a.ext", "a");
    open_file(&mut eng, "/b.ext", "b");
    open_file(&mut eng, "/c.ext", "c");
    drain(&mut eng, MultiArchiverAction::CloseRequest(1, true));
    assert_eq!(eng.files.len(), 2);
    // The trailing buffer-clear notification for the closed index 1.
    let (events, _) = drain(&mut eng, MultiArchiverAction::SetSaved(1, false));
    assert_eq!(events.len(), 0);
    assert!(eng.files[1].saved);
    // The stale marker is consumed: the next one addresses the live entry.
    let (events, _) = drain(&mut eng, MultiArchiverAction::SetSaved(1, false));
    assert_eq!(events.len(), 1);
    assert!(!eng.files[1].saved);
}

#[test]
fn out_of_range_indices_are_dropped() {
    let mut eng = MultiArchiver::new("ext".to_string());
    drain(&mut eng, MultiArchiverAction::NewRequest);
    let (events, _) = drain(&mut eng, MultiArchiverAction::CloseRequest(5, true));
    assert_eq!(events.len(), 0);
    assert_eq!(eng.files.len(), 1);
    let (events, _) = drain(&mut eng, MultiArchiverAction::SetSaved(5, false));
    assert_eq!(events.len(), 0);
    let (events, _) = drain(
        &mut eng,
        MultiArchiverAction::SaveSuccess(5, "/x.ext".to_string()),
    );
    assert_eq!(events.len(), 0);
    let (events, _) = drain(&mut eng, MultiArchiverAction::Select(Some(5)));
    assert_eq!(events.len(), 0);
}

#[test]
fn close_of_dirty_file_asks_for_confirmation() {
    let mut eng = MultiArchiver::new("ext".to_string());
    open_file(&mut eng, "/a.ext", "a");
    drain(&mut eng, MultiArchiverAction::SetSaved(0, false));
    let (events, _) = drain(&mut eng, MultiArchiverAction::CloseRequest(0, false));
    assert_eq!(eng.files.len(), 1);
    assert_eq!(events.len(), 1);
    assert!(matches!(&events[0], MultiEvent::CloseConfirm(f) if f.name == "/a.ext"));
    // Re-issued with force, the close goes through.
    let (events, _) = drain(&mut eng, MultiArchiverAction::CloseRequest(0, true));
    assert_eq!(eng.files.len(), 0);
    assert!(matches!(&events[0], MultiEvent::Closed(_, 0)));
}

#[test]
fn window_close_with_dirty_file_confirms_then_closes() {
    let mut eng = MultiArchiver::new("ext".to_string());
    open_file(&mut eng, "/a.ext", "a");
    drain(&mut eng, MultiArchiverAction::SetSaved(0, false));
    let (events, _) = drain(&mut eng, MultiArchiverAction::WindowCloseRequest);
    assert_eq!(events.len(), 1);
    assert!(matches!(&events[0], MultiEvent::CloseConfirm(_)));
    // The user discards: the forced close also closes the window.
    let (events, _) = drain(&mut eng, MultiArchiverAction::CloseRequest(0, true));
    assert!(events.iter().any(|e| matches!(e, MultiEvent::Closed(..))));
    assert!(events.iter().any(|e| matches!(e, MultiEvent::WindowClose)));
}

#[test]
fn window_close_with_everything_saved_is_immediate() {
    let mut eng = MultiArchiver::new("ext".to_string());
    open_file(&mut eng, "/a.ext", "a");
    let (events, _) = drain(&mut eng, MultiArchiverAction::WindowCloseRequest);
    assert_eq!(events.len(), 1);
    assert!(matches!(&events[0], MultiEvent::WindowClose));
}

#[test]
fn save_with_no_stored_path_asks_for_one() {
    let mut eng = MultiArchiver::new("ext".to_string());
    drain(&mut eng, MultiArchiverAction::NewRequest);
    drain(&mut eng, MultiArchiverAction::Select(Some(0)));
    let (events, spawns) = drain(&mut eng, MultiArchiverAction::SaveRequest(None));
    assert!(spawns.is_empty());
    assert_eq!(events.len(), 1);
    assert!(matches!(&events[0], MultiEvent::SaveUnknownPath(n) if n == "Untitled 1.ext"));
}

#[test]
fn open_relative_resolves_against_prefix() {
    let mut eng = MultiArchiver::new("ext".to_string());
    let (events, spawns) = drain(
        &mut eng,
        MultiArchiverAction::OpenRelativeRequest("sub/f.ext".to_string()),
    );
    assert!(spawns.is_empty());
    assert_eq!(count_errors(&events, "No path prefix set"), 1);
    drain(
        &mut eng,
        MultiArchiverAction::SetPrefix(Some("/home/u/proj".to_string())),
    );
    let (_, spawns) = drain(
        &mut eng,
        MultiArchiverAction::OpenRelativeRequest("sub/f.ext".to_string()),
    );
    assert_eq!(spawns.len(), 1);
    assert!(matches!(
        &spawns[0],
        MultiEffect::SpawnOpen { path, index: 0 } if path == "/home/u/proj/sub/f.ext"
    ));
}

#[test]
fn absolute_relative_path_replaces_prefix_and_is_then_rejected() {
    let mut eng = MultiArchiver::new("ext".to_string());
    drain(
        &mut eng,
        MultiArchiverAction::SetPrefix(Some("/home/u/proj".to_string())),
    );
    // The join resolves an absolute "relative" path to itself, and the
    // re-enqueued open request then fails the sandbox check.
    let (events, spawns) = drain(
        &mut eng,
        MultiArchiverAction::OpenRelativeRequest("/etc/passwd".to_string()),
    );
    assert!(spawns.is_empty());
    assert_eq!(
        count_errors(&events, "Cannot open file outside prefix /home/u/proj"),
        1
    );
}

#[test]
fn recent_accumulates_independent_of_open_status() {
    let mut eng = MultiArchiver::new("ext".to_string());
    let loaded = OpenedFile {
        name: "/startup.ext".to_string(),
        path: Some("/startup.ext".to_string()),
        content: None,
        saved: true,
        dt: None,
        index: 0,
    };
    drain(&mut eng, MultiArchiverAction::Add(loaded));
    open_file(&mut eng, "/opened.ext", "x");
    drain(&mut eng, MultiArchiverAction::NewRequest);
    drain(&mut eng, MultiArchiverAction::Select(Some(1)));
    drain(
        &mut eng,
        MultiArchiverAction::SaveSuccess(1, "/firstsave.ext".to_string()),
    );
    // One entry per distinct path: added, opened, first-saved.
    let paths: Vec<&str> = eng
        .recent
        .iter()
        .map(|f| f.path.as_deref().unwrap())
        .collect();
    assert_eq!(paths, vec!["/startup.ext", "/opened.ext", "/firstsave.ext"]);
    // Closing everything leaves the recent list intact.
    drain(&mut eng, MultiArchiverAction::CloseRequest(0, true));
    drain(&mut eng, MultiArchiverAction::CloseRequest(0, true));
    assert_eq!(eng.recent.len(), 3);
    assert_eq!(eng.final_state().recent.len(), 3);
}

#[test]
fn error_results_only_notify() {
    let mut eng = MultiArchiver::new("ext".to_string());
    drain(&mut eng, MultiArchiverAction::NewRequest);
    let (events, _) = drain(
        &mut eng,
        MultiArchiverAction::OpenError("boom".to_string()),
    );
    assert_eq!(count_errors(&events, "boom"), 1);
    let (events, _) = drain(
        &mut eng,
        MultiArchiverAction::SaveError("crash".to_string()),
    );
    assert_eq!(count_errors(&events, "crash"), 1);
    assert_eq!(eng.files.len(), 1);
}

#[test]
fn add_deduplicates_recent_by_path() {
    let mut eng = MultiArchiver::new("ext".to_string());
    let entry = OpenedFile {
        name: "/old.ext".to_string(),
        path: Some("/old.ext".to_string()),
        content: None,
        saved: true,
        dt: None,
        index: 0,
    };
    let (events, _) = drain(&mut eng, MultiArchiverAction::Add(entry.clone()));
    assert_eq!(events.len(), 1);
    assert!(matches!(&events[0], MultiEvent::Added(_)));
    assert_eq!(eng.recent.len(), 1);
    drain(&mut eng, MultiArchiverAction::Add(entry));
    assert_eq!(eng.recent.len(), 1);
}

#[test]
fn select_moves_pointer_and_notifies() {
    let mut eng = MultiArchiver::new("ext".to_string());
    open_file(&mut eng, "/a.ext", "a");
    let (events, _) = drain(&mut eng, MultiArchiverAction::Select(Some(0)));
    assert_eq!(eng.selected, Some(0));
    assert!(matches!(&events[0], MultiEvent::Selected(Some(f)) if f.name == "/a.ext"));
    let (events, _) = drain(&mut eng, MultiArchiverAction::Select(None));
    assert_eq!(eng.selected, None);
    assert!(matches!(&events[0], MultiEvent::Selected(None)));
}

#[test]
fn opened_file_lands_in_recent_once() {
    let mut eng = MultiArchiver::new("ext".to_string());
    open_file(&mut eng, "/a.ext", "a");
    assert_eq!(eng.recent.len(), 1);
    drain(&mut eng, MultiArchiverAction::CloseRequest(0, true));
    open_file(&mut eng, "/a.ext", "a");
    assert_eq!(eng.recent.len(), 1);
}

#[test]
fn final_state_snapshots_on_close() {
    let mut eng = MultiArchiver::new("ext".to_string());
    open_file(&mut eng, "/a.ext", "a");
    open_file(&mut eng, "/b.ext", "b");
    let snap = eng.final_state();
    assert_eq!(snap.files.len(), 0);
    drain(&mut eng, MultiArchiverAction::CloseRequest(0, true));
    let snap = eng.final_state();
    assert_eq!(snap.files.len(), 1);
    assert_eq!(snap.files[0].name, "/b.ext");
    assert_eq!(snap.recent.len(), 2);
}

#[test]
fn untitled_counter_survives_the_machine_maximum() {
    let mut eng = MultiArchiver::new("ext".to_string());
    // A crafted entry carrying the largest counter the engine tracks.
    let crafted = OpenedFile {
        name: "Untitled 18446744073709551614.ext".to_string(),
        path: Some("/crafted.ext".to_string()),
        content: None,
        saved: true,
        dt: None,
        index: 0,
    };
    drain(&mut eng, MultiArchiverAction::OpenSuccess(crafted));
    drain(&mut eng, MultiArchiverAction::NewRequest);
    assert_eq!(eng.files[1].name, "Untitled 18446744073709551615.ext");
    // A name at the maximum itself is not counted, so no overflow follows.
    drain(&mut eng, MultiArchiverAction::NewRequest);
    assert_eq!(eng.files[2].name, "Untitled 18446744073709551615.ext");
}

#[test]
fn open_worker_outcome_forwards_read_error() {
    let action = open_read_outcome(
        "/gone.ext".to_string(),
        Err("No such file or directory".to_string()),
        3,
        NOW,
    );
    assert!(matches!(
        &action,
        MultiArchiverAction::OpenError(m) if m == "No such file or directory"
    ));
}

#[test]
fn open_worker_outcome_builds_saved_record() {
    let action = open_read_outcome("/a.ext".to_string(), Ok("text".to_string()), 2, NOW);
    match action {
        MultiArchiverAction::OpenSuccess(f) => {
            assert_eq!(f.name, "/a.ext");
            assert_eq!(f.path.as_deref(), Some("/a.ext"));
            assert_eq!(f.content.as_deref(), Some("text"));
            assert!(f.saved);
            assert_eq!(f.dt, Some(NOW));
            assert_eq!(f.index, 2);
        },
        _ => panic!("expected a successful open"),
    }
}

#[test]
fn save_worker_checks_target_before_writing() {
    let r = save_target_check("relative/path.ext", false);
    assert!(matches!(
        &r,
        Some(MultiArchiverAction::SaveError(m)) if m == "Using non-absolute path"
    ));
    let r = save_target_check("/some/dir", true);
    assert!(matches!(
        &r,
        Some(MultiArchiverAction::SaveError(m)) if m == "Tried to save file to directory path"
    ));
    assert!(save_target_check("/some/file.ext", false).is_none());
}

#[test]
fn save_worker_outcome_reports_both_ways() {
    let a = save_write_outcome("/x.ext".to_string(), 4, Ok(()));
    assert!(matches!(&a, MultiArchiverAction::SaveSuccess(4, p) if p == "/x.ext"));
    let a = save_write_outcome("/x.ext".to_string(), 4, Err("disk full".to_string()));
    assert!(matches!(&a, MultiArchiverAction::SaveError(m) if m == "disk full"));
}
