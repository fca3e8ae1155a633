use fs_watch_event::{
    basename, map_path, parse_config, plan_event, trash_plan, trash_root_path, BackupError,
    ChangeEvent, Dispatch, EventKind, PathState,
};

#[test]
fn map_path_replaces_prefix_structurally() {
    assert_eq!("/b/note.txt", map_path("/w/note.txt", "/w", "/b").unwrap());
    assert_eq!("/b/sub/deep/x", map_path("/w/sub/deep/x", "/w", "/b").unwrap());
    assert_eq!("/b", map_path("/w", "/w", "/b").unwrap());
}

#[test]
fn map_path_is_not_a_substring_replace() {
    // The watch-root string recurs inside the file name; only the leading
    // segment-level prefix may be replaced.
    assert_eq!("/b/w/w.txt", map_path("/w/w/w.txt", "/w", "/b").unwrap());
}

#[test]
fn map_path_rejects_out_of_scope() {
    assert_eq!(Err(BackupError::OutOfScope), map_path("/elsewhere/a", "/w", "/b"));
    // A sibling whose name merely begins with the watch root is not under it.
    assert_eq!(Err(BackupError::OutOfScope), map_path("/watched/a", "/w", "/b"));
    assert_eq!(Err(BackupError::OutOfScope), map_path("/v", "/w", "/b"));
}

#[test]
fn basename_takes_final_segment() {
    assert_eq!("note.txt", basename("/w/sub/note.txt"));
    assert_eq!("plain", basename("plain"));
    assert_eq!("", basename("/w/dir/"));
}

#[test]
fn trash_root_sits_under_backup_root() {
    assert_eq!("/b/.trash", trash_root_path("/b"));
}

#[test]
fn removal_moves_backup_copy_to_trash() {
    // Removing WatchRoot/sub/note.txt when BackupRoot/note.txt exists moves
    // it to BackupRoot/.trash/note.txt.
    let mv = trash_plan("/w/sub/note.txt", "/b", false, false, 7).unwrap();
    assert_eq!("/b/note.txt", mv.source);
    assert_eq!("/b/.trash/note.txt", mv.dest);
}

#[test]
fn removal_of_directory_keeps_its_name() {
    let mv = trash_plan("/w/sub", "/b", true, true, 7).unwrap();
    assert_eq!("/b/sub", mv.source);
    assert_eq!("/b/.trash/sub", mv.dest);
}

#[test]
fn colliding_removal_takes_timestamped_name() {
    // A second removal of the same basename must not overwrite the trash
    // entry: the newcomer is renamed with the clock reading.
    let mv = trash_plan("/w/sub/note.txt", "/b", false, true, 1234).unwrap();
    assert_eq!("/b/note.txt", mv.source);
    assert_eq!("/b/.trash/note (1234).txt", mv.dest);
    assert_ne!("/b/.trash/note.txt", mv.dest);
}

#[test]
fn colliding_removal_without_extension_is_rejected() {
    assert_eq!(
        Err(BackupError::NoExtension),
        trash_plan("/w/sub/note", "/b", false, true, 1234).map(|m| m.dest)
    );
}

#[test]
fn removal_without_file_name_is_rejected() {
    assert_eq!(
        Err(BackupError::NoFileName),
        trash_plan("/w/sub/", "/b", false, false, 0).map(|m| m.dest)
    );
}

#[test]
fn modify_of_present_file_mirrors_it() {
    let event = ChangeEvent {
        kind: EventKind::Modify,
        paths: vec![String::from("/w/note.txt")],
    };
    match plan_event(&event, PathState::FilePath, "/w", "/b").unwrap() {
        Dispatch::MirrorFile { source, target } => {
            assert_eq!("/w/note.txt", source);
            assert_eq!("/b/note.txt", target);
        }
        _ => panic!("expected a file mirror"),
    }
}

#[test]
fn modify_of_present_directory_mirrors_it() {
    let event = ChangeEvent {
        kind: EventKind::Modify,
        paths: vec![String::from("/w/sub")],
    };
    match plan_event(&event, PathState::DirPath, "/w", "/b").unwrap() {
        Dispatch::MirrorDir { target } => assert_eq!("/b/sub", target),
        _ => panic!("expected a directory mirror"),
    }
}

#[test]
fn modify_of_vanished_path_goes_to_trash() {
    let event = ChangeEvent {
        kind: EventKind::Modify,
        paths: vec![String::from("/w/note.txt")],
    };
    match plan_event(&event, PathState::MissingPath, "/w", "/b").unwrap() {
        Dispatch::ResolveTrash { path } => assert_eq!("/w/note.txt", path),
        _ => panic!("expected a trash resolution"),
    }
}

#[test]
fn remove_goes_to_trash() {
    let event = ChangeEvent {
        kind: EventKind::Remove,
        paths: vec![String::from("/w/note.txt")],
    };
    match plan_event(&event, PathState::MissingPath, "/w", "/b").unwrap() {
        Dispatch::ResolveTrash { path } => assert_eq!("/w/note.txt", path),
        _ => panic!("expected a trash resolution"),
    }
}

#[test]
fn create_and_other_are_logged_only() {
    for kind in [EventKind::Create, EventKind::Other] {
        let event = ChangeEvent {
            kind,
            paths: vec![String::from("/w/note.txt")],
        };
        assert!(matches!(
            plan_event(&event, PathState::FilePath, "/w", "/b").unwrap(),
            Dispatch::LogOnly
        ));
    }
}

#[test]
fn event_without_paths_is_rejected() {
    let event = ChangeEvent {
        kind: EventKind::Modify,
        paths: vec![],
    };
    assert!(matches!(
        plan_event(&event, PathState::FilePath, "/w", "/b"),
        Err(BackupError::EmptyPaths)
    ));
}

#[test]
fn modify_outside_watch_root_is_out_of_scope() {
    let event = ChangeEvent {
        kind: EventKind::Modify,
        paths: vec![String::from("/elsewhere/note.txt")],
    };
    assert!(matches!(
        plan_event(&event, PathState::FilePath, "/w", "/b"),
        Err(BackupError::OutOfScope)
    ));
}

#[test]
fn full_cycle_for_one_note() {
    // WatchRoot=/w, BackupRoot=/b. A modify of /w/note.txt mirrors it to
    // /b/note.txt; a following remove moves /b/note.txt into /b/.trash.
    let modify = ChangeEvent {
        kind: EventKind::Modify,
        paths: vec![String::from("/w/note.txt")],
    };
    match plan_event(&modify, PathState::FilePath, "/w", "/b").unwrap() {
        Dispatch::MirrorFile { source, target } => {
            assert_eq!("/w/note.txt", source);
            assert_eq!("/b/note.txt", target);
        }
        _ => panic!("expected a file mirror"),
    }
    let remove = ChangeEvent {
        kind: EventKind::Remove,
        paths: vec![String::from("/w/note.txt")],
    };
    let path = match plan_event(&remove, PathState::MissingPath, "/w", "/b").unwrap() {
        Dispatch::ResolveTrash { path } => path,
        _ => panic!("expected a trash resolution"),
    };
    let mv = trash_plan(&path, "/b", false, false, 0).unwrap();
    assert_eq!("/b/note.txt", mv.source);
    assert_eq!("/b/.trash/note.txt", mv.dest);
}

#[test]
fn parse_config_wants_both_roots() {
    assert!(parse_config(&vec![String::from("watch")]).is_err());
    assert!(parse_config(&vec![String::from("watch"), String::from("/w")]).is_err());
    let (watch_root, backup_root) = parse_config(&vec![
        String::from("watch"),
        String::from("/w"),
        String::from("/b"),
    ])
    .unwrap();
    assert_eq!("/w", watch_root);
    assert_eq!("/b", backup_root);
}
