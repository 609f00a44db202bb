use std::cell::RefCell;
use std::io::Write;
use std::path::Path;

use fontlift::journal::{
    determine_recovery_policy, install_journal_actions, journal_path, load_journal,
    recover_incomplete_operations, recovery_policy_for, remove_journal_actions, save_failure,
    save_plan, ActionRecoveryResult, EntryId, Journal, JournalAction, JournalEntry, JournalError,
    JournalFile, RecoveryPolicy, SaveStage,
};
use fontlift::platform::Platform;
use fontlift::{FontError, FontScope};

fn copy(from: &str, to: &str) -> JournalAction {
    JournalAction::CopyFile {
        from: from.to_string(),
        to: to.to_string(),
    }
}

fn delete(path: &str) -> JournalAction {
    JournalAction::DeleteFile {
        path: path.to_string(),
    }
}

fn register(path: &str, scope: FontScope) -> JournalAction {
    JournalAction::RegisterFont {
        path: path.to_string(),
        scope,
    }
}

fn clear(scope: FontScope) -> JournalAction {
    JournalAction::ClearCache { scope }
}

/// Puts a file with the given content at `path`.
fn put_file(path: &Path, content: &[u8]) {
    let mut file = tempfile::NamedTempFile::new_in(path.parent().unwrap()).unwrap();
    file.write_all(content).unwrap();
    file.persist(path).unwrap();
}

fn text(path: &Path) -> String {
    path.to_str().unwrap().to_string()
}

#[test]
fn test_journal_entry_creation() {
    let actions = vec![
        copy("/src/font.ttf", "/dst/font.ttf"),
        register("/dst/font.ttf", FontScope::User),
    ];

    let entry = JournalEntry::new(actions.clone(), Some("Install font".to_string()));

    assert!(!entry.completed);
    assert_eq!(entry.current_step, 0);
    assert_eq!(entry.actions.len(), 2);
    assert!(entry.is_incomplete());
}

#[test]
fn test_journal_operations() {
    let mut journal = Journal::new();

    let actions = vec![delete("/test.ttf")];

    let id = journal.record_operation(actions, None);
    assert_eq!(journal.entries.len(), 1);

    journal.mark_step(id, 1).unwrap();
    assert_eq!(journal.find_entry(id).unwrap().current_step, 1);

    journal.mark_completed(id).unwrap();
    assert!(journal.find_entry(id).unwrap().completed);
    assert!(journal.incomplete_entries().is_empty());
}

#[test]
fn test_action_descriptions() {
    let copy = copy("/a", "/b");
    assert!(copy.description().contains("/a"));
    assert!(copy.description().contains("/b"));

    let register = register("/font.ttf", FontScope::System);
    assert!(register.description().contains("font.ttf"));
    assert!(register.description().contains("System"));
}

#[test]
fn test_cleanup_old_entries() {
    let mut journal = Journal::new();

    // Add a completed entry
    let id = journal.record_operation(vec![], None);
    journal.mark_completed(id).unwrap();

    // Add an incomplete entry
    journal.record_operation(vec![clear(FontScope::User)], None);

    assert_eq!(journal.entries.len(), 2);

    // Cleanup with 0 age should remove completed, keep incomplete
    journal.cleanup_old_entries(0);

    assert_eq!(journal.entries.len(), 1);
    assert!(journal.entries[0].is_incomplete());
}

#[test]
fn test_recovery_policy_determination() {
    let copy_missing = copy("/nonexistent", "/also_nonexistent");
    assert_eq!(
        determine_recovery_policy(&copy_missing),
        RecoveryPolicy::RollForward
    );

    let cache = clear(FontScope::User);
    assert_eq!(determine_recovery_policy(&cache), RecoveryPolicy::Skip);
}

#[test]
fn install_journal_actions_include_copy_when_paths_differ() {
    let source = "C:/tmp/source.ttf";
    let target = "C:/Windows/Fonts/target.ttf";

    let actions = install_journal_actions(source, target, FontScope::System);

    assert_eq!(actions.len(), 2);
    assert!(matches!(
        actions[0],
        JournalAction::CopyFile { ref from, ref to }
        if from == source && to == target
    ));
    assert!(matches!(
        actions[1],
        JournalAction::RegisterFont { ref path, scope }
        if path == target && scope == FontScope::System
    ));
}

#[test]
fn install_journal_actions_skip_copy_when_paths_match() {
    let path = "C:/Windows/Fonts/AlreadyThere.ttf";

    let actions = install_journal_actions(path, path, FontScope::System);

    assert_eq!(actions.len(), 1);
    assert!(matches!(
        actions[0],
        JournalAction::RegisterFont { path: ref p, scope }
        if p == path && scope == FontScope::System
    ));
}

#[test]
fn install_actions_skip_copy_when_paths_differ_only_in_case() {
    let actions = install_journal_actions(
        "C:/Windows/Fonts/Arial.TTF",
        "c:/windows/fonts/arial.ttf",
        FontScope::User,
    );
    assert_eq!(
        actions,
        vec![register("c:/windows/fonts/arial.ttf", FontScope::User)]
    );
}

#[test]
fn remove_actions_unregister_then_delete() {
    let actions = remove_journal_actions("/fonts/a.ttf", FontScope::User);
    assert_eq!(
        actions,
        vec![
            JournalAction::UnregisterFont {
                path: "/fonts/a.ttf".to_string(),
                scope: FontScope::User
            },
            delete("/fonts/a.ttf"),
        ]
    );
}

#[test]
fn descriptions_are_exact() {
    assert_eq!(copy("/a", "/b").description(), "Copy /a to /b");
    assert_eq!(
        register("/f.ttf", FontScope::User).description(),
        "Register /f.ttf (User)"
    );
    assert_eq!(
        JournalAction::UnregisterFont {
            path: "/f.ttf".to_string(),
            scope: FontScope::System
        }
        .description(),
        "Unregister /f.ttf (System)"
    );
    assert_eq!(delete("/f.ttf").description(), "Delete /f.ttf");
    assert_eq!(
        clear(FontScope::System).description(),
        "Clear caches (System)"
    );
}

#[test]
fn actions_compare_by_value() {
    assert_eq!(copy("/a", "/b"), copy("/a", "/b"));
    assert_ne!(copy("/a", "/b"), copy("/a", "/c"));
    assert_ne!(copy("/a", "/b"), delete("/a"));
    assert_ne!(
        register("/a", FontScope::User),
        register("/a", FontScope::System)
    );
    assert_eq!(copy("/a", "/b").clone(), copy("/a", "/b"));
}

#[test]
fn record_operation_starts_at_step_zero_and_open() {
    let mut journal = Journal::new();
    let first = journal.record_operation(vec![delete("/x")], Some("first".to_string()));
    let actions = vec![copy("/a", "/b"), register("/b", FontScope::User)];
    let second = journal.record_operation(actions.clone(), Some("second".to_string()));

    assert_ne!(first, second);
    assert_eq!(journal.entries.len(), 2);
    assert_eq!(journal.entries[0].id, first);
    let entry = journal.find_entry(second).unwrap();
    assert_eq!(entry.id, second);
    assert_eq!(entry.actions, actions);
    assert_eq!(entry.description, Some("second".to_string()));
    assert_eq!(entry.current_step, 0);
    assert!(!entry.completed);
}

#[test]
fn zero_action_entry_is_never_incomplete() {
    let mut entry = JournalEntry::with_identity(EntryId(7), 100, vec![], None);
    assert!(!entry.completed);
    assert!(!entry.is_incomplete());
    entry.completed = true;
    assert!(!entry.is_incomplete());

    let mut full = JournalEntry::with_identity(EntryId(8), 100, vec![delete("/x")], None);
    assert!(full.is_incomplete());
    full.completed = true;
    assert!(!full.is_incomplete());
}

#[test]
fn remaining_actions_is_the_suffix_from_the_cursor() {
    let actions = vec![copy("/a", "/b"), register("/b", FontScope::User), delete("/a")];
    let mut entry = JournalEntry::with_identity(EntryId(1), 0, actions.clone(), None);

    assert_eq!(entry.remaining_actions(), &actions[..]);
    assert_eq!(entry.current_action(), Some(&actions[0]));

    entry.current_step = 2;
    assert_eq!(entry.remaining_actions(), &actions[2..]);
    assert_eq!(entry.current_action(), Some(&actions[2]));

    entry.current_step = 3;
    assert!(entry.remaining_actions().is_empty());
    assert_eq!(entry.current_action(), None);

    entry.current_step = 40;
    assert!(entry.remaining_actions().is_empty());
    assert_eq!(entry.current_action(), None);
}

#[test]
fn mark_step_and_mark_completed_reject_unknown_ids() {
    let mut journal = Journal::new();
    let id = journal.record_operation(vec![delete("/x")], None);
    let unknown = EntryId(id.0.wrapping_add(1));

    assert!(matches!(
        journal.mark_step(unknown, 1),
        Err(JournalError::EntryNotFound(missing)) if missing == unknown
    ));
    assert!(matches!(
        journal.mark_completed(unknown),
        Err(JournalError::EntryNotFound(missing)) if missing == unknown
    ));
    assert!(journal.find_entry(unknown).is_none());
    assert!(journal.find_index(unknown).is_none());
    assert_eq!(journal.entries[0].current_step, 0);
    assert!(!journal.entries[0].completed);
}

#[test]
fn mark_completed_twice_is_the_same_as_once() {
    let mut journal = Journal::new();
    let id = journal.record_operation(vec![delete("/x")], None);
    journal.mark_completed(id).unwrap();
    journal.mark_completed(id).unwrap();
    assert!(journal.find_entry(id).unwrap().completed);
    assert_eq!(journal.find_entry(id).unwrap().current_step, 0);
    assert_eq!(journal.entries.len(), 1);
}

#[test]
fn find_entry_mut_changes_the_entry_in_place() {
    let mut journal = Journal::new();
    let first = journal.record_operation(vec![delete("/x")], None);
    let second = journal.record_operation(vec![delete("/y")], None);
    journal.find_entry_mut(second).unwrap().current_step = 1;
    assert_eq!(journal.find_entry(first).unwrap().current_step, 0);
    assert_eq!(journal.find_entry(second).unwrap().current_step, 1);
    assert!(journal.find_entry_mut(EntryId(first.0 ^ second.0 ^ 1)).is_none() || first.0 ^ second.0 ^ 1 == first.0 || first.0 ^ second.0 ^ 1 == second.0);
}

#[test]
fn unknown_id_becomes_an_invalid_format_error() {
    let err = JournalError::EntryNotFound(EntryId(0)).into_font_error();
    match err {
        FontError::InvalidFormat(message) => assert_eq!(
            message,
            "Journal entry not found: 00000000-0000-0000-0000-000000000000"
        ),
        other => panic!("unexpected error: {:?}", other),
    }
    assert!(matches!(
        JournalError::IoError("disk".to_string()).into_font_error(),
        FontError::IoError(cause) if cause == "disk"
    ));
    assert!(matches!(
        JournalError::InvalidFormat("bad".to_string()).into_font_error(),
        FontError::InvalidFormat(cause) if cause == "bad"
    ));
}

#[test]
fn incomplete_entries_keep_journal_order() {
    let mut journal = Journal::new();
    let a = journal.record_operation(vec![delete("/a")], None);
    let b = journal.record_operation(vec![], None);
    let c = journal.record_operation(vec![delete("/c")], None);
    let d = journal.record_operation(vec![delete("/d")], None);
    journal.mark_completed(c).unwrap();

    let ids: Vec<EntryId> = journal.incomplete_entries().iter().map(|e| e.id).collect();
    assert_eq!(ids, vec![a, d]);
    assert!(journal.find_entry(b).is_some());
}

#[test]
fn cleanup_zero_removes_completed_and_keeps_incomplete_for_any_mix() {
    let mut journal = Journal::new();
    for i in 0..6u64 {
        let mut entry = JournalEntry::with_identity(
            EntryId(i as u128),
            1_000 + i,
            vec![delete("/x")],
            None,
        );
        entry.completed = i % 2 == 0;
        journal.entries.push(entry);
    }
    let mut empty_open = JournalEntry::with_identity(EntryId(99), 1_000, vec![], None);
    empty_open.completed = false;
    journal.entries.push(empty_open);

    journal.cleanup_old_entries_at(2_000, 0);

    let ids: Vec<u128> = journal.entries.iter().map(|e| e.id.0).collect();
    assert_eq!(ids, vec![1, 3, 5, 99]);
    assert!(journal.entries.iter().all(|e| !e.completed));
}

#[test]
fn cleanup_goes_by_age_and_keeps_entries_from_the_future() {
    let mut journal = Journal::new();
    for (id, started_at) in [(1u128, 100u64), (2, 900), (3, 901), (4, 5_000)] {
        let mut entry = JournalEntry::with_identity(EntryId(id), started_at, vec![], None);
        entry.completed = true;
        journal.entries.push(entry);
    }

    // At time 1000 with a maximum age of 100: ages are 900, 100, 99, and one
    // entry that starts after the clock reading.
    journal.cleanup_old_entries_at(1_000, 100);

    let ids: Vec<u128> = journal.entries.iter().map(|e| e.id.0).collect();
    assert_eq!(ids, vec![3, 4]);
}

#[test]
fn policy_for_every_action_and_disk_state() {
    let c = copy("/a", "/b");
    assert_eq!(recovery_policy_for(&c, true), RecoveryPolicy::Skip);
    assert_eq!(recovery_policy_for(&c, false), RecoveryPolicy::RollForward);
    let d = delete("/a");
    assert_eq!(recovery_policy_for(&d, true), RecoveryPolicy::RollForward);
    assert_eq!(recovery_policy_for(&d, false), RecoveryPolicy::Skip);
    for present in [true, false] {
        assert_eq!(
            recovery_policy_for(&register("/a", FontScope::User), present),
            RecoveryPolicy::RollForward
        );
        assert_eq!(
            recovery_policy_for(
                &JournalAction::UnregisterFont {
                    path: "/a".to_string(),
                    scope: FontScope::System
                },
                present
            ),
            RecoveryPolicy::RollForward
        );
        assert_eq!(
            recovery_policy_for(&clear(FontScope::User), present),
            RecoveryPolicy::Skip
        );
    }
    assert_eq!(c.decisive_path(), Some("/b"));
    assert_eq!(d.decisive_path(), Some("/a"));
    assert_eq!(clear(FontScope::User).decisive_path(), None);
}

#[test]
fn policy_is_the_same_for_the_same_inputs() {
    let dir = tempfile::TempDir::new().unwrap();
    let present = dir.path().join("present.ttf");
    put_file(&present, b"font");
    let absent = dir.path().join("absent.ttf");

    let actions = vec![
        copy("/a", &text(&present)),
        copy("/a", &text(&absent)),
        delete(&text(&present)),
        delete(&text(&absent)),
        register(&text(&absent), FontScope::User),
        clear(FontScope::System),
    ];
    let expected = vec![
        RecoveryPolicy::Skip,
        RecoveryPolicy::RollForward,
        RecoveryPolicy::RollForward,
        RecoveryPolicy::Skip,
        RecoveryPolicy::RollForward,
        RecoveryPolicy::Skip,
    ];
    for _ in 0..3 {
        let policies: Vec<RecoveryPolicy> =
            actions.iter().map(determine_recovery_policy).collect();
        assert_eq!(policies, expected);
    }
    // Looking did not change the disk.
    assert!(present.exists());
    assert!(!absent.exists());
}

/// A handler that copies and deletes for real and leaves registrations alone.
fn file_handler(action: &JournalAction, policy: RecoveryPolicy) -> Result<bool, FontError> {
    match (action, policy) {
        (_, RecoveryPolicy::Skip) => Ok(true),
        (JournalAction::CopyFile { from, to }, RecoveryPolicy::RollForward) => {
            if Path::new(to).exists() {
                Ok(true)
            } else if Path::new(from).exists() {
                put_file(Path::new(to), b"font data");
                Ok(true)
            } else {
                Ok(false)
            }
        }
        (JournalAction::DeleteFile { path }, RecoveryPolicy::RollForward) => {
            if Path::new(path).exists() {
                let file = tempfile::NamedTempFile::new_in(Path::new(path).parent().unwrap())
                    .map_err(|e| FontError::IoError(e.to_string()))?;
                // Renaming a temporary file over the path and dropping it deletes both.
                let moved = file
                    .persist(path)
                    .map_err(|e| FontError::IoError(e.to_string()))?;
                drop(moved);
                let again = tempfile::TempPath::from_path(path.clone());
                again.close().map_err(|e| FontError::IoError(e.to_string()))?;
            }
            Ok(true)
        }
        _ => Ok(false),
    }
}

#[test]
fn recovery_rolls_an_unfinished_copy_forward() {
    let dir = tempfile::TempDir::new().unwrap();
    let a = dir.path().join("a.ttf");
    let b = dir.path().join("b.ttf");
    put_file(&a, b"font data");

    let mut journal = Journal::new();
    let id = journal.record_operation(vec![copy(&text(&a), &text(&b))], None);

    let seen = RefCell::new(Vec::new());
    let results = recover_incomplete_operations(&mut journal, |action, policy| {
        seen.borrow_mut().push(policy);
        file_handler(action, policy)
    });

    assert_eq!(*seen.borrow(), vec![RecoveryPolicy::RollForward]);
    assert_eq!(results.len(), 1);
    assert!(results[0].success);
    assert_eq!(results[0].policy, RecoveryPolicy::RollForward);
    assert_eq!(results[0].action, copy(&text(&a), &text(&b)));
    assert_eq!(results[0].message, None);
    let entry = journal.find_entry(id).unwrap();
    assert_eq!(entry.current_step, 1);
    assert!(entry.completed);
    assert!(b.exists());
}

#[test]
fn recovery_skips_a_copy_whose_destination_is_there() {
    let dir = tempfile::TempDir::new().unwrap();
    let a = dir.path().join("a.ttf");
    let b = dir.path().join("b.ttf");
    put_file(&a, b"font data");
    put_file(&b, b"newer data");

    let mut journal = Journal::new();
    let id = journal.record_operation(vec![copy(&text(&a), &text(&b))], None);

    let copies = RefCell::new(0);
    let results = recover_incomplete_operations(&mut journal, |_action, policy| {
        if policy == RecoveryPolicy::RollForward {
            *copies.borrow_mut() += 1;
        }
        Ok(true)
    });

    assert_eq!(*copies.borrow(), 0);
    assert_eq!(results.len(), 1);
    assert_eq!(results[0].policy, RecoveryPolicy::Skip);
    assert!(results[0].success);
    assert!(journal.find_entry(id).unwrap().completed);
    assert!(b.exists());
}

#[test]
fn recovery_skips_a_delete_whose_file_is_gone() {
    let dir = tempfile::TempDir::new().unwrap();
    let p = dir.path().join("gone.ttf");

    let mut journal = Journal::new();
    let id = journal.record_operation(vec![delete(&text(&p))], None);

    let results = recover_incomplete_operations(&mut journal, file_handler);

    assert_eq!(results.len(), 1);
    assert_eq!(results[0].policy, RecoveryPolicy::Skip);
    assert!(results[0].success);
    assert_eq!(results[0].message, None);
    let entry = journal.find_entry(id).unwrap();
    assert!(entry.completed);
    assert_eq!(entry.current_step, 1);
}

#[test]
fn recovery_halts_an_entry_at_its_first_failure() {
    let dir = tempfile::TempDir::new().unwrap();
    let a = dir.path().join("a.ttf");
    let b = dir.path().join("b.ttf");

    let mut journal = Journal::new();
    let id = journal.record_operation(
        vec![copy(&text(&a), &text(&b)), register(&text(&b), FontScope::User)],
        None,
    );

    let offered = RefCell::new(Vec::new());
    let results = recover_incomplete_operations(&mut journal, |action, _policy| {
        offered.borrow_mut().push(action.clone());
        match action {
            JournalAction::CopyFile { .. } => Ok(false),
            _ => Ok(true),
        }
    });

    assert_eq!(*offered.borrow(), vec![copy(&text(&a), &text(&b))]);
    assert_eq!(results.len(), 1);
    assert!(!results[0].success);
    let entry = journal.find_entry(id).unwrap();
    assert_eq!(entry.current_step, 0);
    assert!(!entry.completed);
    assert!(entry.is_incomplete());
}

#[test]
fn recovery_goes_on_with_other_entries_after_a_handler_error() {
    let dir = tempfile::TempDir::new().unwrap();
    let a = dir.path().join("a.ttf");
    let b = dir.path().join("b.ttf");
    put_file(&a, b"font data");

    let mut journal = Journal::new();
    let failing = journal.record_operation(vec![register("/fonts/x.ttf", FontScope::User)], None);
    let recoverable = journal.record_operation(
        vec![copy(&text(&a), &text(&b)), clear(FontScope::User)],
        None,
    );

    let results = recover_incomplete_operations(&mut journal, |action, policy| match action {
        JournalAction::RegisterFont { .. } => {
            Err(FontError::RegistrationFailed("refused".to_string()))
        }
        _ => file_handler(action, policy),
    });

    assert_eq!(results.len(), 3);
    assert!(!results[0].success);
    assert_eq!(results[0].action, register("/fonts/x.ttf", FontScope::User));
    assert_eq!(
        results[0].message,
        Some(FontError::RegistrationFailed("refused".to_string()).message())
    );
    assert!(results[1].success);
    assert!(results[2].success);
    assert_eq!(results[2].policy, RecoveryPolicy::Skip);

    assert!(journal.find_entry(failing).unwrap().is_incomplete());
    assert_eq!(journal.find_entry(failing).unwrap().current_step, 0);
    assert!(journal.find_entry(recoverable).unwrap().completed);
    assert_eq!(journal.find_entry(recoverable).unwrap().current_step, 2);
    assert!(b.exists());
}

#[test]
fn recovery_resumes_from_the_cursor() {
    let mut journal = Journal::new();
    let id = journal.record_operation(
        vec![
            clear(FontScope::User),
            register("/a", FontScope::User),
            register("/b", FontScope::User),
            register("/c", FontScope::User),
        ],
        None,
    );
    journal.mark_step(id, 1).unwrap();

    let results = recover_incomplete_operations(&mut journal, |action, _policy| {
        Ok(*action != register("/c", FontScope::User))
    });

    let offered: Vec<JournalAction> = results.iter().map(|r| r.action.clone()).collect();
    assert_eq!(
        offered,
        vec![
            register("/a", FontScope::User),
            register("/b", FontScope::User),
            register("/c", FontScope::User)
        ]
    );
    let flags: Vec<bool> = results.iter().map(|r| r.success).collect();
    assert_eq!(flags, vec![true, true, false]);
    let entry = journal.find_entry(id).unwrap();
    assert_eq!(entry.current_step, 3);
    assert!(!entry.completed);
}

#[test]
fn recovery_closes_an_open_entry_whose_cursor_is_past_the_end() {
    let mut journal = Journal::new();
    let id = journal.record_operation(vec![delete("/x")], None);
    journal.mark_step(id, 5).unwrap();

    let calls = RefCell::new(0);
    let results = recover_incomplete_operations(&mut journal, |_a, _p| {
        *calls.borrow_mut() += 1;
        Ok(true)
    });

    assert_eq!(*calls.borrow(), 0);
    assert!(results.is_empty());
    let entry = journal.find_entry(id).unwrap();
    assert!(entry.completed);
    assert_eq!(entry.current_step, 5);
}

#[test]
fn recovery_leaves_completed_and_empty_entries_alone() {
    let mut journal = Journal::new();
    let done = journal.record_operation(vec![delete("/x")], None);
    journal.mark_completed(done).unwrap();
    let empty = journal.record_operation(vec![], None);

    let results = recover_incomplete_operations(&mut journal, |_a, _p| Ok(true));

    assert!(results.is_empty());
    assert_eq!(journal.find_entry(done).unwrap().current_step, 0);
    assert!(journal.find_entry(done).unwrap().completed);
    assert!(!journal.find_entry(empty).unwrap().completed);
}

#[test]
fn recovery_twice_is_recovery_once() {
    let dir = tempfile::TempDir::new().unwrap();
    let a = dir.path().join("a.ttf");
    let b = dir.path().join("b.ttf");
    let c = dir.path().join("c.ttf");
    put_file(&a, b"font data");
    put_file(&c, b"old");

    let mut journal = Journal::new();
    journal.record_operation(vec![copy(&text(&a), &text(&b)), delete(&text(&c))], None);
    journal.record_operation(vec![clear(FontScope::User)], None);

    let first = recover_incomplete_operations(&mut journal, file_handler);
    assert_eq!(first.len(), 3);
    assert!(first.iter().all(|r| r.success));
    assert!(b.exists());
    assert!(!c.exists());
    let after_first = journal.clone();

    let second = recover_incomplete_operations(&mut journal, file_handler);
    assert!(second.is_empty());
    assert!(journal.incomplete_entries().is_empty());
    assert_eq!(journal.entries.len(), after_first.entries.len());
    for (now, before) in journal.entries.iter().zip(after_first.entries.iter()) {
        assert_eq!(now.id, before.id);
        assert_eq!(now.current_step, before.current_step);
        assert_eq!(now.completed, before.completed);
        assert_eq!(now.actions, before.actions);
    }
    assert!(a.exists());
    assert!(b.exists());
    assert!(!c.exists());
}

#[test]
fn attempt_records_keep_the_outcome() {
    let done = ActionRecoveryResult::from_outcome(
        delete("/x"),
        RecoveryPolicy::RollForward,
        &Ok(true),
    );
    assert!(done.success);
    assert_eq!(done.message, None);
    let refused = ActionRecoveryResult::from_outcome(
        delete("/x"),
        RecoveryPolicy::RollForward,
        &Ok(false),
    );
    assert!(!refused.success);
    assert_eq!(refused.message, None);
    let failed = ActionRecoveryResult::from_outcome(
        delete("/x"),
        RecoveryPolicy::Skip,
        &Err(FontError::IoError("disk full".to_string())),
    );
    assert!(!failed.success);
    assert_eq!(failed.policy, RecoveryPolicy::Skip);
    assert_eq!(
        failed.message,
        Some("IO error: disk full\n→ Suggestion: Check file permissions and disk space".to_string())
    );
}

#[test]
fn journal_path_takes_the_first_source_that_applies() {
    let joined = |parts: &[&str]| -> String {
        let mut path = std::path::PathBuf::from(parts[0]);
        for part in &parts[1..] {
            path = path.join(part);
        }
        path.to_str().unwrap().to_string()
    };
    assert_eq!(
        journal_path(Some("/x/j.json"), Some("/root"), Some("/data"), Platform::Other),
        "/x/j.json"
    );
    assert_eq!(
        journal_path(None, Some("/root"), Some("/data"), Platform::Other),
        joined(&["/root", "journal.json"])
    );
    assert_eq!(
        journal_path(None, None, Some("/data"), Platform::Other),
        joined(&["/data", "fontlift", "journal.json"])
    );
    assert_eq!(
        journal_path(None, None, Some("/data"), Platform::MacOs),
        joined(&["/data", "FontLift", "journal.json"])
    );
    assert_eq!(
        journal_path(None, None, None, Platform::Other),
        joined(&["/tmp", "fontlift", "journal.json"])
    );
    assert_eq!(
        journal_path(None, None, None, Platform::Windows),
        joined(&["C:\\ProgramData", "FontLift", "journal.json"])
    );
}

#[test]
fn a_missing_journal_file_is_an_empty_journal() {
    let journal = load_journal(JournalFile::Missing).unwrap();
    assert!(journal.entries.is_empty());

    let mut kept = Journal::new();
    let id = kept.record_operation(vec![delete("/x")], Some("d".to_string()));
    let loaded = load_journal(JournalFile::Parsed(kept)).unwrap();
    assert_eq!(loaded.entries.len(), 1);
    assert_eq!(loaded.entries[0].id, id);
}

#[test]
fn a_broken_journal_file_is_an_error() {
    assert!(matches!(
        load_journal(JournalFile::Malformed("expected value at line 1".to_string())),
        Err(JournalError::InvalidFormat(m)) if m == "Failed to parse journal: expected value at line 1"
    ));
    assert!(matches!(
        load_journal(JournalFile::Unreadable("permission denied".to_string())),
        Err(JournalError::IoError(m)) if m == "Failed to read journal: permission denied"
    ));
}

#[test]
fn saving_goes_through_a_temporary_sibling() {
    let plan = save_plan("/data/fontlift/journal.json");
    assert_eq!(plan.path, "/data/fontlift/journal.json");
    assert_eq!(plan.temp_path, "/data/fontlift/journal.json.tmp");
    assert_eq!(plan.parent, Some("/data/fontlift".to_string()));

    assert!(matches!(
        save_failure(SaveStage::CreateParent, "denied"),
        JournalError::IoError(m) if m == "denied"
    ));
    assert!(matches!(
        save_failure(SaveStage::Serialize, "bad"),
        JournalError::InvalidFormat(m) if m == "Failed to serialize journal: bad"
    ));
    assert!(matches!(
        save_failure(SaveStage::WriteTemp, "full"),
        JournalError::IoError(m) if m == "Failed to write journal temp file: full"
    ));
    assert!(matches!(
        save_failure(SaveStage::Rename, "busy"),
        JournalError::IoError(m) if m == "Failed to rename journal file: busy"
    ));
}

#[test]
fn cleanup_zero_removes_completed_entries_whatever_the_clock() {
    let mut journal = Journal::new();
    for (id, started_at, completed) in [
        (1u128, 0u64, true),
        (2, 5_000, true),
        (3, u64::MAX, true),
        (4, u64::MAX, false),
        (5, 10, false),
    ] {
        let mut entry =
            JournalEntry::with_identity(EntryId(id), started_at, vec![delete("/x")], None);
        entry.completed = completed;
        journal.entries.push(entry);
    }
    let mut by_clock = journal.clone();

    // The clock stands before the start of two of the completed entries.
    journal.cleanup_old_entries_at(1_000, 0);
    let ids: Vec<u128> = journal.entries.iter().map(|e| e.id.0).collect();
    assert_eq!(ids, vec![4, 5]);

    by_clock.cleanup_old_entries(0);
    let ids: Vec<u128> = by_clock.entries.iter().map(|e| e.id.0).collect();
    assert_eq!(ids, vec![4, 5]);
}

#[test]
fn unused_id_is_the_smallest_that_no_entry_has() {
    let mut journal = Journal::new();
    assert_eq!(journal.unused_id(), EntryId(0));
    for id in [1u128, 0, 3, 0] {
        journal
            .entries
            .push(JournalEntry::with_identity(EntryId(id), 0, vec![], None));
    }
    assert_eq!(journal.unused_id(), EntryId(2));
    journal
        .entries
        .push(JournalEntry::with_identity(EntryId(2), 0, vec![], None));
    assert_eq!(journal.unused_id(), EntryId(4));
}

#[test]
fn recorded_identifiers_are_new_to_the_journal() {
    let mut journal = Journal::new();
    let mut seen = Vec::new();
    for _ in 0..50 {
        let before: Vec<EntryId> = journal.entries.iter().map(|e| e.id).collect();
        let id = journal.record_operation(vec![clear(FontScope::User)], None);
        assert!(!before.contains(&id));
        assert!(!seen.contains(&id));
        seen.push(id);
        assert_eq!(journal.entries.last().unwrap().id, id);
    }
    assert_eq!(journal.entries.len(), 50);
}
