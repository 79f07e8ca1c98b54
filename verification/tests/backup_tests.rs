use m_core::backup::{backup, choose_victim, BackupLog};
use m_core::effect::{FileStamp, FsRequest, PathFacts, PathKind, Removal, Step};
use m_core::time::Timestamp;

fn file(path: &str, secs: i64) -> FileStamp {
    FileStamp { path: path.to_string(), is_file: true, modified: Some(Timestamp { secs, nanos: 0 }) }
}

fn present(kind: PathKind) -> Option<PathFacts> {
    Some(PathFacts { kind, extension: None })
}

#[test]
fn no_backup_goes_while_there_are_fewer_than_four() {
    assert_eq!(choose_victim(&Vec::new()), None);
    assert_eq!(choose_victim(&vec![file("a", 1), file("b", 2), file("c", 3)]), None);
}

#[test]
fn the_oldest_of_four_goes() {
    let files = vec![file("a", 40), file("b", 10), file("c", 30), file("d", 20)];
    assert_eq!(choose_victim(&files), Some(1));
    let five = vec![file("a", 40), file("b", 10), file("c", 30), file("d", 20), file("e", 5)];
    assert_eq!(choose_victim(&five), Some(4));
}

#[test]
fn of_equally_old_backups_the_first_goes() {
    let files = vec![file("a", 5), file("b", 3), file("c", 3), file("d", 9)];
    assert_eq!(choose_victim(&files), Some(1));
}

#[test]
fn nanoseconds_tell_ages_apart() {
    let mut files = vec![file("a", 5), file("b", 5), file("c", 5), file("d", 5)];
    files[2].modified = Some(Timestamp { secs: 4, nanos: 999 });
    files[3].modified = Some(Timestamp { secs: 4, nanos: 998 });
    assert_eq!(choose_victim(&files), Some(3));
}

#[test]
fn an_unreadable_age_counts_as_the_epoch() {
    let mut files = vec![file("a", 40), file("b", 10), file("c", 30), file("d", 20)];
    files[2].modified = None;
    assert_eq!(choose_victim(&files), Some(2));
    files[0].modified = Some(Timestamp { secs: -5, nanos: 0 });
    assert_eq!(choose_victim(&files), Some(0));
}

#[test]
fn entries_that_are_no_files_do_not_count() {
    let mut files = vec![file("a", 40), file("b", 10), file("c", 30), file("d", 20)];
    files[1].is_file = false;
    assert_eq!(choose_victim(&files), None);
    files.push(file("e", 35));
    assert_eq!(choose_victim(&files), Some(3));
}

#[test]
fn backup_without_a_store_file_does_nothing() {
    let mut log = BackupLog::new();
    assert_eq!(
        backup("data/library.redb", "data/backup", "20240102-030405", &log).requests(),
        Step::Need(FsRequest::Inspect("data/library.redb".to_string()))
    );
    log.source = present(PathKind::Missing);
    assert_eq!(backup("data/library.redb", "data/backup", "20240102-030405", &log).requests(), Step::Done(()));
}

#[test]
fn fifth_backup_replaces_the_oldest() {
    let run = |log: &BackupLog| backup("data/library.redb", "data/backup", "20240102-030405", log);
    let mut log = BackupLog::new();
    log.source = present(PathKind::File);
    assert_eq!(run(&log).requests(), Step::Need(FsRequest::Inspect("data/backup".to_string())));
    log.dir = present(PathKind::Directory);
    assert_eq!(run(&log).requests(), Step::Need(FsRequest::ListFiles("data/backup".to_string())));
    log.files = Some(Ok(vec![
        file("data/backup/library-4.redb", 400),
        file("data/backup/library-1.redb", 100),
        file("data/backup/library-3.redb", 300),
        file("data/backup/library-2.redb", 200),
    ]));
    assert_eq!(
        run(&log).requests(),
        Step::Need(FsRequest::Remove(vec![Removal {
            path: "data/backup/library-1.redb".to_string(),
            recursive: false
        }]))
    );
    log.removed = Some(Ok(()));
    assert_eq!(
        run(&log).requests(),
        Step::Need(FsRequest::CopyFile {
            from: "data/library.redb".to_string(),
            to: "data/backup/library-20240102-030405.redb".to_string(),
        })
    );
    log.copied = Some(Ok(()));
    assert_eq!(run(&log).requests(), Step::Done(()));
}

#[test]
fn backup_copies_even_when_the_removal_failed() {
    let mut log = BackupLog::new();
    log.source = present(PathKind::File);
    log.dir = present(PathKind::Directory);
    log.files = Some(Ok(vec![file("a", 4), file("b", 1), file("c", 3), file("d", 2)]));
    log.removed = Some(Err("busy".to_string()));
    assert!(matches!(backup("s", "b", "t", &log).requests(), Step::Need(FsRequest::CopyFile { .. })));
    log.copied = Some(Err("full".to_string()));
    assert_eq!(backup("s", "b", "t", &log).requests(), Step::Done(()));
}

#[test]
fn backup_with_few_files_only_copies() {
    let mut log = BackupLog::new();
    log.source = present(PathKind::File);
    log.dir = present(PathKind::Directory);
    log.files = Some(Ok(vec![file("a", 4), file("b", 1), file("c", 3)]));
    assert_eq!(
        backup("s", "b", "t", &log).requests(),
        Step::Need(FsRequest::CopyFile { from: "s".to_string(), to: "b/library-t.redb".to_string() })
    );
}

#[test]
fn backup_creates_its_directory() {
    let mut log = BackupLog::new();
    log.source = present(PathKind::File);
    log.dir = present(PathKind::Missing);
    assert_eq!(backup("s", "b", "t", &log).requests(), Step::Need(FsRequest::CreateDirAll("b".to_string())));
    log.created = Some(Err("denied".to_string()));
    assert_eq!(backup("s", "b", "t", &log).requests(), Step::Done(()));
    log.created = Some(Ok(()));
    assert_eq!(backup("s", "b", "t", &log).requests(), Step::Need(FsRequest::ListFiles("b".to_string())));
    log.files = Some(Err("denied".to_string()));
    assert_eq!(backup("s", "b", "t", &log).requests(), Step::Done(()));
}
