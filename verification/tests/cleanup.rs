use rocket_launcher::cleanup::{
    cleanup_log, dir_action, dir_action_line, file_action, file_action_line, has_pending_mod_cleanup,
    link_entry_type, mod_artifacts, parse_link_line, parse_links, remove_outcome, restore_outcome,
    scripts_snapshot_key, scripts_to_remove, still_pending, DirAction, FileAction, IoOutcome,
    ScriptsBaselines,
};

#[test]
fn baselines_give_back_what_was_stored() {
    let mut b = ScriptsBaselines::new();
    assert!(b.get("c:\\game").is_none());
    b.store("c:\\game".to_string(), vec!["a.asi".to_string()]);
    b.store("d:\\other".to_string(), vec![]);
    b.store("c:\\game".to_string(), vec!["b.asi".to_string(), "c.asi".to_string()]);
    assert_eq!(b.get("c:\\game"), Some(vec!["b.asi".to_string(), "c.asi".to_string()]));
    assert_eq!(b.get("d:\\other"), Some(vec![]));
    b.clear("c:\\game");
    assert!(b.get("c:\\game").is_none());
    assert_eq!(b.get("d:\\other"), Some(vec![]));
}

#[test]
fn snapshot_keys() {
    assert_eq!(scripts_snapshot_key("C:/Games/NFSW", true), "c:\\games\\nfsw");
    assert_eq!(scripts_snapshot_key("/home/u/NFSW", false), "/home/u/NFSW");
}

#[test]
fn links_lines_are_read() {
    assert_eq!(parse_link_line("  mods\\a.dll \t 0 "), Some((Some(0), "mods\\a.dll".to_string())));
    assert_eq!(parse_link_line("plugins"), Some((None, "plugins".to_string())));
    assert_eq!(parse_link_line("   \t1"), None);
    assert_eq!(parse_link_line("x\tnotanumber"), None);
    assert_eq!(parse_link_line("x\t300"), None);
    assert_eq!(parse_link_line("a\tb\t1"), None);
    let all = parse_links("a.dll\t0\n\ndir\t1\r\nlegacy.txt\n");
    assert_eq!(
        all,
        vec![
            (Some(0), "a.dll".to_string()),
            (Some(1), "dir".to_string()),
            (None, "legacy.txt".to_string()),
        ]
    );
    assert_eq!(link_entry_type(Some(5), false), 5);
    assert_eq!(link_entry_type(None, true), 0);
    assert_eq!(link_entry_type(None, false), 1);
}

#[test]
fn replaced_files_are_handled() {
    assert!(file_action(true, true, 2) == FileAction::Restore);
    assert!(file_action(false, false, 2) == FileAction::NotFound);
    assert!(file_action(false, true, 2) == FileAction::Remove);
    assert!(file_action(false, true, 1) == FileAction::Skip);
    assert_eq!(file_action_line(FileAction::Restore, "a.orig", "a", 1), "  [F] RESTORE a.orig -> a");
    assert_eq!(file_action_line(FileAction::Remove, "x", "a", 3), "  [F] REMOVE (nlinks=3, no .orig): a");
    assert_eq!(file_action_line(FileAction::Skip, "x", "a", 1), "  [F] SKIP (nlinks=1, already restored): a");
    assert_eq!(file_action_line(FileAction::NotFound, "x", "a", 0), "  [F] NOT FOUND (already cleaned): a");
    assert_eq!(restore_outcome(&IoOutcome::Done, false), ("    OK".to_string(), false));
    assert_eq!(
        restore_outcome(&IoOutcome::AccessDenied("denied".to_string()), false),
        ("    PENDING (access denied, will retry): denied".to_string(), true)
    );
    assert_eq!(
        restore_outcome(&IoOutcome::Failed("gone".to_string()), true),
        ("    SKIP: target already present (concurrent restore)".to_string(), false)
    );
    assert_eq!(
        restore_outcome(&IoOutcome::Failed("gone".to_string()), false),
        ("    WARN: rename failed: gone".to_string(), false)
    );
    assert_eq!(remove_outcome(&IoOutcome::Done), (None, false));
    assert_eq!(
        remove_outcome(&IoOutcome::AccessDenied("d".to_string())),
        (Some("    PENDING (access denied, will retry)".to_string()), true)
    );
    assert_eq!(
        remove_outcome(&IoOutcome::Failed("busy".to_string())),
        (Some("    WARN: remove failed: busy".to_string()), false)
    );
}

#[test]
fn linked_directories_are_handled() {
    assert!(dir_action(false, false) == DirAction::NotFound);
    assert!(dir_action(true, true) == DirAction::RemoveJunction);
    assert!(dir_action(false, true) == DirAction::RemoveJunction);
    assert!(dir_action(true, false) == DirAction::RemovePlain);
    assert_eq!(dir_action_line(DirAction::RemoveJunction, "m"), "  [D] REMOVE (junction): m");
    assert_eq!(dir_action_line(DirAction::RemovePlain, "m"), "  [D] REMOVE (plain dir): m");
}

#[test]
fn cleanup_log_and_pending_state() {
    assert_eq!(
        cleanup_log(2, &vec!["  [F] x".to_string(), "    OK".to_string()], false),
        "=== clean_mods_internal start, 2 entries ===\n  [F] x\n    OK\n=== cleanup done, has_recoverable=false ==="
    );
    assert_eq!(
        cleanup_log(0, &Vec::new(), true),
        "=== clean_mods_internal start, 0 entries ===\n=== cleanup done, has_recoverable=true ==="
    );
    assert_eq!(mod_artifacts(), vec!["lightfx.dll".to_string(), "ModManager.dat".to_string(), "PocoFoundation.dll".to_string()]);
    assert!(!still_pending(false, false, &vec![false, false, false]));
    assert!(still_pending(false, false, &vec![false, true, false]));
    assert!(still_pending(true, false, &vec![]));
    assert_eq!(has_pending_mod_cleanup(false, true, true, &vec![true]), Ok(false));
    assert_eq!(has_pending_mod_cleanup(true, false, true, &vec![]), Ok(true));
    assert_eq!(has_pending_mod_cleanup(true, false, false, &vec![false]), Ok(false));
}

#[test]
fn only_new_scripts_are_removed() {
    let now = vec!["a.asi".to_string(), "new.asi".to_string(), "b.ini".to_string()];
    let before = vec!["b.ini".to_string(), "a.asi".to_string()];
    assert_eq!(scripts_to_remove(&now, &before), vec!["new.asi".to_string()]);
}
