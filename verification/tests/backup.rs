use prompalette_update::backup::{
    automatic_backup_filename, backup_deleted, cleanup_old_backups, count_removed, create_backup,
    create_manual_backup, delete_backup, has_database_extension, is_automatic_backup,
    list_backups, manual_backup_filename, restore_from_backup, backups_in, BackupInfo,
    BackupOutcome, DirectoryEntry, FileDetails, FileOutcome, ListingOutcome, AUTOMATIC_PREFIX,
    BACKUP_DIRECTORY, DEFAULT_KEEP_COUNT,
};
use prompalette_update::calendar::Timestamp;
use prompalette_update::environment::Platform;
use prompalette_update::paths::resolve_inside;
use prompalette_update::updater::UpdateError;

fn at(secs: i64) -> Timestamp {
    Timestamp::from_unix(secs, 0).expect("a time that the calendar holds")
}

fn entry(name: &str, created: Option<i64>, size: u64) -> DirectoryEntry {
    DirectoryEntry {
        filename: name.to_string(),
        full_path: format!("/data/backups/{}", name),
        is_file: true,
        details: Some(FileDetails { size_bytes: size, created_unix: created }),
    }
}

fn backup(name: &str, created: i64, automatic: bool) -> BackupInfo {
    BackupInfo {
        filename: name.to_string(),
        full_path: format!("/data/backups/{}", name),
        created_at: String::new(),
        created_unix: created,
        size_bytes: 1,
        is_automatic: automatic,
    }
}

fn names(backups: &[BackupInfo]) -> Vec<String> {
    let mut out = Vec::new();
    for b in backups {
        out.push(b.filename.clone());
    }
    out
}

#[test]
fn timestamps_render_in_utc() {
    let epoch = at(0);
    assert_eq!(epoch.rfc3339(), "1970-01-01T00:00:00+00:00");
    assert_eq!(epoch.compact(), "19700101_000000");
    assert_eq!(epoch.seconds(), 0);
    let later = Timestamp::from_unix(1_700_000_000, 123_456_789).unwrap();
    assert_eq!(later.rfc3339(), "2023-11-14T22:13:20.123456789+00:00");
    assert_eq!(later.compact(), "20231114_221320");
    assert_eq!(later.seconds(), 1_700_000_000);
    let before = at(-1);
    assert_eq!(before.rfc3339(), "1969-12-31T23:59:59+00:00");
    assert_eq!(before.compact(), "19691231_235959");
}

#[test]
fn times_outside_the_calendar_are_refused() {
    assert!(Timestamp::from_unix(i64::MAX, 0).is_none());
    assert!(Timestamp::from_unix(i64::MIN, 0).is_none());
    assert!(Timestamp::from_unix(0, 2_000_000_000).is_none());
}

#[test]
fn backup_file_names() {
    let now = at(1_700_000_000);
    assert_eq!(automatic_backup_filename(&now), "prompalette_backup_20231114_221320.db");
    assert_eq!(manual_backup_filename(None, &now), "manual_backup_20231114_221320.db");
    assert_eq!(manual_backup_filename(Some("before-upgrade"), &now), "manual_before-upgrade_20231114_221320.db");
    assert_eq!(manual_backup_filename(Some(""), &now), "manual__20231114_221320.db");
    assert_eq!(BACKUP_DIRECTORY, "backups");
    assert_eq!(AUTOMATIC_PREFIX, "prompalette_backup_");
    assert_eq!(DEFAULT_KEEP_COUNT, 10);
}

#[test]
fn manual_names_are_never_automatic() {
    let now = at(1_700_000_000);
    for label in [None, Some(""), Some("x"), Some("prompalette_backup_"), Some("backup")] {
        let name = manual_backup_filename(label, &now);
        assert!(!is_automatic_backup(&name));
        assert!(has_database_extension(&name));
    }
    let automatic = automatic_backup_filename(&now);
    assert!(is_automatic_backup(&automatic));
    assert!(has_database_extension(&automatic));
}

#[test]
fn database_extension() {
    assert!(has_database_extension("a.db"));
    assert!(has_database_extension("archive.tar.db"));
    assert!(has_database_extension("..db"));
    assert!(!has_database_extension(".db"));
    assert!(!has_database_extension("db"));
    assert!(!has_database_extension("a.DB"));
    assert!(!has_database_extension("a.db.bak"));
    assert!(!has_database_extension("a.db."));
    assert!(!has_database_extension(""));
    assert!(!has_database_extension("notes.txt"));
}

#[test]
fn an_empty_directory_lists_nothing() {
    assert!(backups_in(Vec::new(), &at(0)).is_empty());
    assert!(list_backups(ListingOutcome::Entries(Vec::new()), &at(0)).unwrap().is_empty());
    assert!(list_backups(ListingOutcome::NoDirectory, &at(0)).unwrap().is_empty());
}

#[test]
fn an_unreadable_directory_is_an_error() {
    match list_backups(ListingOutcome::Unreadable("permission denied".to_string()), &at(0)) {
        Err(message) => assert_eq!(message, "Failed to read backup directory: permission denied"),
        Ok(_) => panic!("Expected an error"),
    }
    match list_backups(ListingOutcome::DataDirectoryUnknown("no home".to_string()), &at(0)) {
        Err(message) => assert_eq!(message, "no home"),
        Ok(_) => panic!("Expected an error"),
    }
}

#[test]
fn listing_shows_database_files_newest_first() {
    let mut directory = entry("subdir.db", Some(50), 0);
    directory.is_file = false;
    let mut unreadable = entry("unreadable.db", Some(60), 0);
    unreadable.details = None;
    let entries = vec![
        entry("prompalette_backup_20240101_000000.db", Some(100), 10),
        entry("notes.txt", Some(500), 1),
        entry("manual_backup_20240103_000000.db", Some(300), 30),
        directory,
        entry("prompalette_backup_20240102_000000.db", Some(200), 20),
        unreadable,
        entry(".db", Some(700), 1),
    ];
    let backups = list_backups(ListingOutcome::Entries(entries), &at(1_000)).unwrap();
    assert_eq!(
        names(&backups),
        vec![
            "manual_backup_20240103_000000.db".to_string(),
            "prompalette_backup_20240102_000000.db".to_string(),
            "prompalette_backup_20240101_000000.db".to_string(),
        ]
    );
    assert!(!backups[0].is_automatic);
    assert!(backups[1].is_automatic);
    assert!(backups[2].is_automatic);
    assert_eq!(backups[0].size_bytes, 30);
    assert_eq!(backups[0].full_path, "/data/backups/manual_backup_20240103_000000.db");
    assert_eq!(backups[0].created_unix, 300);
    assert_eq!(backups[0].created_at, "1970-01-01T00:05:00+00:00");
    assert_eq!(backups[2].created_at, "1970-01-01T00:01:40+00:00");
}

#[test]
fn listing_keeps_the_order_of_equal_times() {
    let entries = vec![
        entry("a.db", Some(5), 1),
        entry("b.db", Some(9), 1),
        entry("c.db", Some(5), 1),
        entry("d.db", Some(9), 1),
        entry("e.db", Some(5), 1),
    ];
    let backups = backups_in(entries, &at(0));
    assert_eq!(names(&backups), vec!["b.db", "d.db", "a.db", "c.db", "e.db"]);
}

#[test]
fn unknown_creation_time_is_the_time_of_listing() {
    let now = Timestamp::from_unix(1_700_000_000, 500).unwrap();
    let entries = vec![
        entry("old.db", Some(100), 1),
        entry("unknown.db", None, 1),
        entry("unrenderable.db", Some(i64::MAX), 1),
    ];
    let backups = backups_in(entries, &now);
    assert_eq!(names(&backups), vec!["unknown.db", "unrenderable.db", "old.db"]);
    assert_eq!(backups[0].created_at, "2023-11-14T22:13:20.000000500+00:00");
    assert_eq!(backups[0].created_unix, 1_700_000_000);
    assert_eq!(backups[1].created_at, "2023-11-14T22:13:20.000000500+00:00");
    assert_eq!(backups[1].created_unix, 1_700_000_000);
    assert_eq!(backups[2].created_at, "1970-01-01T00:01:40+00:00");
}

#[test]
fn cleanup_removes_the_oldest_automatic_backups() {
    let mut backups = Vec::new();
    for i in 0..15i64 {
        // neither oldest nor newest first
        let age = (i * 7) % 15;
        backups.push(backup(&format!("prompalette_backup_{:02}.db", age), 1_000 + age, true));
    }
    backups.push(backup("manual_backup_a.db", 1, false));
    backups.push(backup("manual_backup_b.db", 2_000, false));
    let doomed = cleanup_old_backups(backups, Some(10));
    assert_eq!(
        names(&doomed),
        vec![
            "prompalette_backup_00.db",
            "prompalette_backup_01.db",
            "prompalette_backup_02.db",
            "prompalette_backup_03.db",
            "prompalette_backup_04.db",
        ]
    );
    for b in &doomed {
        assert!(b.is_automatic);
    }
}

#[test]
fn cleanup_keeps_ten_by_default() {
    let mut backups = Vec::new();
    for i in 0..12i64 {
        backups.push(backup(&format!("prompalette_backup_{:02}.db", i), 100 - i, true));
    }
    let doomed = cleanup_old_backups(backups, None);
    assert_eq!(names(&doomed), vec!["prompalette_backup_11.db", "prompalette_backup_10.db"]);
}

#[test]
fn cleanup_is_idle_within_the_limit() {
    let mut backups = Vec::new();
    for i in 0..10i64 {
        backups.push(backup(&format!("prompalette_backup_{:02}.db", i), i, true));
    }
    for i in 0..20i64 {
        backups.push(backup(&format!("manual_{}.db", i), i, false));
    }
    assert!(cleanup_old_backups(backups, Some(10)).is_empty());
    assert!(cleanup_old_backups(Vec::new(), Some(0)).is_empty());
    assert!(cleanup_old_backups(vec![backup("manual_x.db", 1, false)], Some(0)).is_empty());
}

#[test]
fn cleanup_with_nothing_to_keep_removes_every_automatic_backup() {
    let backups = vec![
        backup("prompalette_backup_b.db", 2, true),
        backup("manual_backup.db", 0, false),
        backup("prompalette_backup_a.db", 1, true),
        backup("prompalette_backup_c.db", 2, true),
    ];
    let doomed = cleanup_old_backups(backups, Some(0));
    assert_eq!(
        names(&doomed),
        vec!["prompalette_backup_a.db", "prompalette_backup_b.db", "prompalette_backup_c.db"]
    );
}

#[test]
fn removals_that_failed_are_not_counted() {
    assert_eq!(count_removed(&vec![]), 0);
    assert_eq!(count_removed(&vec![true, false, true, true, false]), 3);
    assert_eq!(count_removed(&vec![false, false]), 0);
}

#[test]
fn traversal_is_refused() {
    let refused = Err("Invalid backup file path".to_string());
    for platform in [Platform::Other, Platform::MacOs, Platform::Windows] {
        assert_eq!(delete_backup("../../etc/passwd", platform), refused);
        assert_eq!(delete_backup("..", platform), refused);
        assert_eq!(delete_backup("../backups/a.db", platform), refused);
        assert_eq!(delete_backup("a/../../b.db", platform), refused);
        assert_eq!(delete_backup("/etc/passwd", platform), refused);
        assert_eq!(delete_backup("", platform), refused);
        assert_eq!(delete_backup(".", platform), refused);
        assert_eq!(delete_backup("a/..", platform), refused);
        assert_eq!(delete_backup("./", platform), refused);
    }
}

#[test]
fn windows_paths_are_refused_on_windows() {
    let refused = Err("Invalid backup file path".to_string());
    assert_eq!(delete_backup("..\\..\\windows\\system32", Platform::Windows), refused);
    assert_eq!(delete_backup("\\\\server\\share\\a.db", Platform::Windows), refused);
    assert_eq!(delete_backup("C:\\Windows\\a.db", Platform::Windows), refused);
    assert_eq!(delete_backup("c:a.db", Platform::Windows), refused);
    assert_eq!(delete_backup("a.db:stream", Platform::Windows), refused);
    assert_eq!(delete_backup("a\\..\\..\\b.db", Platform::Windows), refused);
    assert_eq!(
        delete_backup("x\\y.db", Platform::Windows),
        Ok(vec!["x".to_string(), "y.db".to_string()])
    );
}

#[test]
fn colon_and_backslash_are_ordinary_elsewhere() {
    for platform in [Platform::Other, Platform::MacOs] {
        assert_eq!(
            delete_backup("manual_a:b_20240101_000000.db", platform),
            Ok(vec!["manual_a:b_20240101_000000.db".to_string()])
        );
        assert_eq!(delete_backup("a\\b.db", platform), Ok(vec!["a\\b.db".to_string()]));
        assert_eq!(delete_backup("c:a.db", platform), Ok(vec!["c:a.db".to_string()]));
        assert_eq!(delete_backup("..\\x.db", platform), Ok(vec!["..\\x.db".to_string()]));
    }
}

#[test]
fn every_backup_name_can_be_deleted() {
    let now = at(1_700_000_000);
    for platform in [Platform::Other, Platform::MacOs, Platform::Windows] {
        let automatic = automatic_backup_filename(&now);
        assert_eq!(delete_backup(&automatic, platform), Ok(vec![automatic.clone()]));
        let manual = manual_backup_filename(Some("before upgrade"), &now);
        assert_eq!(delete_backup(&manual, platform), Ok(vec![manual.clone()]));
    }
}

#[test]
fn names_inside_the_directory_resolve() {
    for platform in [Platform::Other, Platform::MacOs, Platform::Windows] {
        assert_eq!(delete_backup("a.db", platform), Ok(vec!["a.db".to_string()]));
        assert_eq!(delete_backup("./a.db", platform), Ok(vec!["a.db".to_string()]));
        assert_eq!(delete_backup("x/../a.db", platform), Ok(vec!["a.db".to_string()]));
        assert_eq!(
            delete_backup("x//y/./z.db", platform),
            Ok(vec!["x".to_string(), "y".to_string(), "z.db".to_string()])
        );
        assert_eq!(delete_backup("a.db/", platform), Ok(vec!["a.db".to_string()]));
        assert_eq!(delete_backup("...", platform), Ok(vec!["...".to_string()]));
        assert_eq!(delete_backup("..a", platform), Ok(vec!["..a".to_string()]));
        assert_eq!(delete_backup("日本語.db", platform), Ok(vec!["日本語.db".to_string()]));
        assert_eq!(resolve_inside("a/b/../c", platform), Some(vec!["a".to_string(), "c".to_string()]));
        assert_eq!(resolve_inside("a/../..", platform), None);
    }
}

#[test]
fn removal_reports() {
    assert_eq!(backup_deleted(FileOutcome::Done), Ok(true));
    assert_eq!(backup_deleted(FileOutcome::Missing), Err("Backup file does not exist".to_string()));
    assert_eq!(
        backup_deleted(FileOutcome::Failed("permission denied".to_string())),
        Err("Failed to delete backup: permission denied".to_string())
    );
    assert_eq!(
        backup_deleted(FileOutcome::DataDirectoryUnknown("Cannot find HOME directory on Linux".to_string())),
        Err("Cannot find HOME directory on Linux".to_string())
    );
}

#[test]
fn restore_reports() {
    assert_eq!(restore_from_backup(FileOutcome::Done), Ok(true));
    assert_eq!(restore_from_backup(FileOutcome::Missing), Err("Backup file does not exist".to_string()));
    assert_eq!(
        restore_from_backup(FileOutcome::Failed("disk full".to_string())),
        Err("Failed to restore database: disk full".to_string())
    );
    assert_eq!(
        restore_from_backup(FileOutcome::DataDirectoryUnknown("no home".to_string())),
        Err("no home".to_string())
    );
}

#[test]
fn automatic_backup_reports() {
    let now = at(1_700_000_000);
    let written = create_backup(BackupOutcome::Copied("/data/backups/x.db".to_string()), &now).unwrap();
    assert!(written.success);
    assert_eq!(written.backup_path, Some("/data/backups/x.db".to_string()));
    assert_eq!(written.timestamp, "2023-11-14T22:13:20+00:00");
    assert_eq!(written.error, None);

    let failed = create_backup(BackupOutcome::CopyFailed("disk full".to_string()), &now).unwrap();
    assert!(!failed.success);
    assert_eq!(failed.backup_path, None);
    assert_eq!(failed.timestamp, "2023-11-14T22:13:20+00:00");
    assert_eq!(failed.error, Some("Failed to copy database: disk full".to_string()));

    match create_backup(BackupOutcome::DirectoryFailed("read-only".to_string()), &now) {
        Err(UpdateError::BackupFailed(detail)) => assert_eq!(detail, "Failed to create backup directory: read-only"),
        _ => panic!("Expected BackupFailed"),
    }
    match create_backup(BackupOutcome::DataDirectoryUnknown("no home".to_string()), &now) {
        Err(UpdateError::BackupFailed(detail)) => assert_eq!(detail, "Failed to get data directory: no home"),
        _ => panic!("Expected BackupFailed"),
    }
}

#[test]
fn manual_backup_reports() {
    let now = at(0);
    let written = create_manual_backup(BackupOutcome::Copied("/b/manual_backup_x.db".to_string()), &now).unwrap();
    assert!(written.success);
    assert_eq!(written.backup_path, Some("/b/manual_backup_x.db".to_string()));
    assert_eq!(written.timestamp, "1970-01-01T00:00:00+00:00");
    assert_eq!(written.error, None);

    let failed = create_manual_backup(BackupOutcome::CopyFailed("disk full".to_string()), &now).unwrap();
    assert!(!failed.success);
    assert_eq!(failed.backup_path, None);
    assert_eq!(failed.error, Some("Failed to copy database: disk full".to_string()));

    let no_directory = create_manual_backup(BackupOutcome::DirectoryFailed("read-only".to_string()), &now).unwrap();
    assert!(!no_directory.success);
    assert_eq!(no_directory.backup_path, None);
    assert_eq!(no_directory.timestamp, "1970-01-01T00:00:00+00:00");
    assert_eq!(no_directory.error, Some("Failed to create backup directory: read-only".to_string()));

    match create_manual_backup(BackupOutcome::DataDirectoryUnknown("no home".to_string()), &now) {
        Err(message) => assert_eq!(message, "no home"),
        Ok(_) => panic!("Expected an error"),
    }
}
