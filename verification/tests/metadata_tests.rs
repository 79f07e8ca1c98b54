use m_core::effect::{
    directory_size, ArchiveFormat, ArchiveProbe, DirEntry, FsRequest, PathFacts, PathKind, Removal,
    Step, ToolCommand, WalkEntry,
};
use m_core::metadata::{
    archive_format, metadata_default_id, metadata_default_version, ContentType, CreateLog,
    DeployLog, DeployType, Metadata, MetadataError, Platform, Tag, UndeployLog,
};
use m_core::time::Timestamp;

fn at(secs: i64) -> Timestamp {
    Timestamp { secs, nanos: 0 }
}

fn facts(kind: PathKind, extension: Option<&str>) -> PathFacts {
    PathFacts { kind, extension: extension.map(|e| e.to_string()) }
}

fn record(archive: &str) -> Metadata {
    Metadata::with_identity(
        "id-1".to_string(),
        at(100),
        "Game".to_string(),
        Platform::Steam,
        Some("42".to_string()),
        archive.to_string(),
    )
}

#[test]
fn new_record_has_defaults() {
    let m = record("a/game.zip");
    assert_eq!(m.id, "id-1");
    assert_eq!(m.title, "Game");
    assert_eq!(m.original_title, None);
    assert_eq!(m.content_type, ContentType::Unknown);
    assert_eq!(m.platform, Platform::Steam);
    assert_eq!(m.platform_id, Some("42".to_string()));
    assert_eq!(m.version, "1.0");
    assert_eq!(m.archive_path, Some("a/game.zip".to_string()));
    assert_eq!(m.archive_password, None);
    assert_eq!(m.deployed_path, None);
    assert_eq!(m.deployed_type, None);
    assert_eq!(m.size_bytes, None);
    assert!(m.tags.is_empty());
    assert_eq!(m.date_created, at(100));
    assert_eq!(m.date_updated, at(100));
}

#[test]
fn new_record_gets_random_id_and_one_time() {
    let a = Metadata::new("A".to_string(), Platform::Unknown, None, "x".to_string());
    let b = Metadata::new("A".to_string(), Platform::Unknown, None, "x".to_string());
    assert_eq!(a.id.chars().count(), 36);
    assert_ne!(a.id, b.id);
    assert_eq!(a.date_created, a.date_updated);
    assert!(a.date_created.secs > 1_600_000_000);
    assert_eq!(a.platform_id, None);
    assert_eq!(a.version, "1.0");
}

#[test]
fn default_id_and_version() {
    let id = metadata_default_id();
    assert_eq!(id.len(), 36);
    assert_eq!(id.chars().filter(|c| *c == '-').count(), 4);
    assert_ne!(id, metadata_default_id());
    assert_eq!(metadata_default_version(), "1.0");
}

#[test]
fn names_of_kinds_and_platforms() {
    assert_eq!(ContentType::Unknown.to_text(), "Unknown");
    assert_eq!(ContentType::Game.to_text(), "Game");
    assert_eq!(ContentType::Comic.to_text(), "Comic");
    assert_eq!(ContentType::Novel.to_text(), "Novel");
    assert_eq!(ContentType::Music.to_text(), "Music");
    assert_eq!(ContentType::Anime.to_text(), "Anime");
    assert_eq!(ContentType::default(), ContentType::Unknown);
    assert_eq!(Platform::Unknown.to_text(), "Unknown");
    assert_eq!(Platform::Steam.to_text(), "Steam");
    assert_eq!(Platform::DLSite.to_text(), "DLSite");
    assert_eq!(Platform::Other("itch".to_string()).to_text(), "itch");
    assert_eq!(Platform::default(), Platform::Unknown);
    assert_eq!(Platform::Other("itch".to_string()).duplicate(), Platform::Other("itch".to_string()));
}

#[test]
fn duplicate_keeps_every_field() {
    let mut m = record("a/game.zip");
    m.tags.push(Tag { name: "rpg".to_string(), category: Some("genre".to_string()) });
    m.tags.push(Tag { name: "2d".to_string(), category: None });
    m.description = Some("d".to_string());
    m.deployed_path = Some("out".to_string());
    m.deployed_type = Some(DeployType::Directory);
    m.size_bytes = Some(7);
    assert_eq!(m.duplicate(), m);
}

#[test]
fn error_messages() {
    assert_eq!(MetadataError::InvalidMetadata("x".to_string()).to_text(), "Invalid metadata: x");
    assert_eq!(
        MetadataError::InvalidOrigin("x".to_string()).to_text(),
        "The provided origin path is invalid: x"
    );
    assert_eq!(MetadataError::FileError("x".to_string()).to_text(), "FileSystem failure: x");
    assert_eq!(MetadataError::CompressionError("x".to_string()).to_text(), "Failed to compress: x");
    assert_eq!(
        MetadataError::DecompressionError("x".to_string()).to_text(),
        "Failed in decompressing: x"
    );
    assert_eq!(
        MetadataError::DecompressionRARError("x".to_string()).to_text(),
        "Failed in decompressing RAR: x"
    );
    assert_eq!(MetadataError::InvalidOperation("x".to_string()).to_text(), "Invalid operation: x");
    let e = MetadataError::FileError("x".to_string());
    assert_eq!(e.duplicate(), e);
}

#[test]
fn mark_updated_at_sets_the_time_only() {
    let mut m = record("a");
    let before = m.clone();
    m.mark_updated_at(at(500));
    assert_eq!(m.date_updated, at(500));
    assert_eq!(m.date_created, at(100));
    m.date_updated = before.date_updated;
    assert_eq!(m, before);
}

#[test]
fn mark_updated_reads_the_clock() {
    let mut m = record("a");
    let before = m.clone();
    m.mark_updated();
    assert!(m.date_updated.secs > 1_600_000_000);
    assert!(m.date_updated.nanos < m_core::time::NANOS_LIMIT);
    assert_eq!(m.date_created, at(100));
    m.date_updated = before.date_updated;
    assert_eq!(m, before);
}

#[test]
fn directory_size_sums_readable_files() {
    let entries = vec![
        WalkEntry::File(Some(10)),
        WalkEntry::NotFile,
        WalkEntry::File(Some(20)),
        WalkEntry::Failed,
        WalkEntry::File(None),
        WalkEntry::File(Some(30)),
    ];
    assert_eq!(directory_size(&entries), Some(60));
    assert_eq!(directory_size(&Vec::new()), Some(0));
}

#[test]
fn directory_size_has_no_result_on_overflow() {
    let entries = vec![WalkEntry::File(Some(u64::MAX)), WalkEntry::File(Some(1))];
    assert_eq!(directory_size(&entries), None);
    let fits = vec![WalkEntry::File(Some(u64::MAX)), WalkEntry::File(Some(0))];
    assert_eq!(directory_size(&fits), Some(u64::MAX));
}

#[test]
fn calculate_size_of_directory_with_three_files() {
    let mut m = record("a/dir");
    let total = directory_size(&vec![
        WalkEntry::File(Some(10)),
        WalkEntry::File(Some(20)),
        WalkEntry::File(Some(30)),
    ])
    .unwrap();
    assert!(m.calculate_size(&ArchiveProbe::Directory(total)).is_ok());
    assert_eq!(m.size_bytes, Some(60));
}

#[test]
fn calculate_size_of_file() {
    let mut m = record("a/game.zip");
    assert_eq!(m.size_request(), Some(FsRequest::Measure("a/game.zip".to_string())));
    assert_eq!(m.calculate_size(&ArchiveProbe::File(1234)), Ok(()));
    assert_eq!(m.size_bytes, Some(1234));
}

#[test]
fn calculate_size_without_archive_path_is_no_failure() {
    let mut m = record("a");
    m.archive_path = None;
    m.size_bytes = Some(5);
    assert_eq!(m.size_request(), None);
    assert_eq!(m.calculate_size(&ArchiveProbe::Missing), Ok(()));
    assert_eq!(m.size_bytes, Some(5));
}

#[test]
fn calculate_size_failures_leave_the_record() {
    let mut m = record("a/game.zip");
    m.size_bytes = Some(5);
    let before = m.clone();
    assert_eq!(
        m.calculate_size(&ArchiveProbe::Missing),
        Err(MetadataError::InvalidMetadata(
            "Trying to calculate size of 'Game' without a valid archive path".to_string()
        ))
    );
    assert_eq!(m, before);
    assert_eq!(
        m.calculate_size(&ArchiveProbe::Unreadable("denied".to_string())),
        Err(MetadataError::FileError("denied".to_string()))
    );
    assert_eq!(m, before);
    assert_eq!(
        m.calculate_size(&ArchiveProbe::Other),
        Err(MetadataError::InvalidMetadata(
            "Unexpected path type for archive a/game.zip: a/game.zip".to_string()
        ))
    );
    assert_eq!(m, before);
}

#[test]
fn archive_format_ignores_case() {
    assert_eq!(archive_format(&Some("zip".to_string())), Some(ArchiveFormat::Zip));
    assert_eq!(archive_format(&Some("ZIP".to_string())), Some(ArchiveFormat::Zip));
    assert_eq!(archive_format(&Some("Rar".to_string())), Some(ArchiveFormat::Rar));
    assert_eq!(archive_format(&Some("7Z".to_string())), Some(ArchiveFormat::SevenZip));
    assert_eq!(archive_format(&Some("7z".to_string())), Some(ArchiveFormat::SevenZip));
    assert_eq!(archive_format(&Some("iso".to_string())), None);
    assert_eq!(archive_format(&Some("zipx".to_string())), None);
    assert_eq!(archive_format(&Some("zi".to_string())), None);
    assert_eq!(archive_format(&Some("".to_string())), None);
    assert_eq!(archive_format(&None), None);
}

#[test]
fn deploy_without_archive_path_is_invalid() {
    let mut m = record("a");
    m.archive_path = None;
    let before = m.clone();
    let step = m.deploy("out", &DeployLog::new(), at(200));
    assert_eq!(
        step.requests(),
        Step::Done(Err(MetadataError::InvalidOperation(
            "Trying to deploy 'Game' without an archive path".to_string()
        )))
    );
    assert_eq!(m, before);
}

#[test]
fn deploy_asks_for_the_archive_first() {
    let mut m = record("a/game.zip");
    let before = m.clone();
    let step = m.deploy("out", &DeployLog::new(), at(200));
    assert_eq!(step.requests(), Step::Need(FsRequest::Inspect("a/game.zip".to_string())));
    assert_eq!(m, before);
}

#[test]
fn deploy_with_missing_archive_fails() {
    let mut m = record("a/game.zip");
    let before = m.clone();
    let mut log = DeployLog::new();
    log.archive = Some(facts(PathKind::Missing, None));
    assert_eq!(
        m.deploy("out", &log, at(200)).requests(),
        Step::Done(Err(MetadataError::InvalidMetadata(
            "Trying to deploy 'Game' without a valid archive path".to_string()
        )))
    );
    assert_eq!(m, before);
}

#[test]
fn deploy_onto_a_file_is_invalid() {
    let mut m = record("a/game.zip");
    let before = m.clone();
    let mut log = DeployLog::new();
    log.archive = Some(facts(PathKind::File, Some("zip")));
    assert_eq!(m.deploy("out", &log, at(200)).requests(), Step::Need(FsRequest::Inspect("out".to_string())));
    log.target = Some(facts(PathKind::File, None));
    assert_eq!(
        m.deploy("out", &log, at(200)).requests(),
        Step::Done(Err(MetadataError::InvalidOperation(
            "Trying to deploy 'Game' to an existing file path: out".to_string()
        )))
    );
    assert_eq!(m, before);
}

#[test]
fn deploy_creates_a_missing_target() {
    let mut m = record("a/game.zip");
    let mut log = DeployLog::new();
    log.archive = Some(facts(PathKind::File, Some("zip")));
    log.target = Some(facts(PathKind::Missing, None));
    assert_eq!(
        m.deploy("out", &log, at(200)).requests(),
        Step::Need(FsRequest::CreateDirAll("out".to_string()))
    );
    log.created = Some(Err("read-only".to_string()));
    assert_eq!(
        m.deploy("out", &log, at(200)).requests(),
        Step::Done(Err(MetadataError::FileError("read-only".to_string())))
    );
    log.created = Some(Ok(()));
    assert_eq!(m.deploy("out", &log, at(200)).requests(), Step::Need(FsRequest::IsEmpty("out".to_string())));
}

#[test]
fn deploy_zip_with_password_then_deploy_off() {
    let mut m = record("game.zip");
    m.archive_password = Some("abc".to_string());
    let mut log = DeployLog::new();
    log.archive = Some(facts(PathKind::File, Some("zip")));
    log.target = Some(facts(PathKind::Directory, None));
    assert_eq!(m.deploy("out/", &log, at(200)).requests(), Step::Need(FsRequest::IsEmpty("out/".to_string())));
    log.empty = Some(Ok(true));
    assert_eq!(
        m.deploy("out/", &log, at(200)).requests(),
        Step::Need(FsRequest::Extract {
            format: ArchiveFormat::Zip,
            archive: "game.zip".to_string(),
            dest: "out/".to_string(),
            password: Some("abc".to_string()),
        })
    );
    assert_eq!(m.deployed_path, None);
    log.transfer = Some(Ok(()));
    assert_eq!(m.deploy("out/", &log, at(200)).requests(), Step::Done(Ok(())));
    assert_eq!(m.deployed_path, Some("out/".to_string()));
    assert_eq!(m.deployed_type, Some(DeployType::Directory));
    assert_eq!(m.date_updated, at(200));
    assert_eq!(m.date_created, at(100));

    let mut off = UndeployLog::new();
    assert_eq!(m.deploy_off(&off, at(300)).requests(), Step::Need(FsRequest::Inspect("out/".to_string())));
    off.target = Some(facts(PathKind::Directory, None));
    assert_eq!(m.deploy_off(&off, at(300)).requests(), Step::Need(FsRequest::ListDir("out/".to_string())));
    off.entries = Some(Ok(vec![
        DirEntry { path: "out/readme.txt".to_string(), is_dir: false },
        DirEntry { path: "out/data".to_string(), is_dir: true },
    ]));
    assert_eq!(
        m.deploy_off(&off, at(300)).requests(),
        Step::Need(FsRequest::Remove(vec![
            Removal { path: "out/readme.txt".to_string(), recursive: false },
            Removal { path: "out/data".to_string(), recursive: true },
        ]))
    );
    assert_eq!(m.deployed_path, Some("out/".to_string()));
    off.removed = Some(Ok(()));
    assert_eq!(m.deploy_off(&off, at(300)).requests(), Step::Done(Ok(())));
    assert_eq!(m.deployed_path, None);
    assert_eq!(m.deployed_type, None);
    assert_eq!(m.date_updated, at(300));
}

#[test]
fn deploy_into_busy_directory_is_invalid() {
    for extension in ["zip", "rar", "7z", "ZIP"] {
        let mut m = record("game.bin");
        let before = m.clone();
        let mut log = DeployLog::new();
        log.archive = Some(facts(PathKind::File, Some(extension)));
        log.target = Some(facts(PathKind::Directory, None));
        log.empty = Some(Ok(false));
        assert_eq!(
        m.deploy("out", &log, at(200)).requests(),
            Step::Done(Err(MetadataError::InvalidOperation(
                "Trying to deploy folder 'Game' to a non-empty directory: out".to_string()
            )))
        );
        assert_eq!(m, before);
    }
    let mut m = record("dir");
    let before = m.clone();
    let mut log = DeployLog::new();
    log.archive = Some(facts(PathKind::Directory, None));
    log.target = Some(facts(PathKind::Directory, None));
    log.empty = Some(Ok(false));
    assert!(matches!(
        m.deploy("out", &log, at(200)).requests(),
        Step::Done(Err(MetadataError::InvalidOperation(_)))
    ));
    assert_eq!(m, before);
}

#[test]
fn deploy_fails_when_emptiness_is_unknown() {
    let mut m = record("dir");
    let mut log = DeployLog::new();
    log.archive = Some(facts(PathKind::Directory, None));
    log.target = Some(facts(PathKind::Directory, None));
    log.empty = Some(Err("denied".to_string()));
    assert_eq!(
        m.deploy("out", &log, at(200)).requests(),
        Step::Done(Err(MetadataError::FileError("denied".to_string())))
    );
}

#[test]
fn deploy_directory_then_deploy_off() {
    let mut m = record("src_dir");
    let start = m.clone();
    let mut log = DeployLog::new();
    log.archive = Some(facts(PathKind::Directory, None));
    log.target = Some(facts(PathKind::Directory, None));
    log.empty = Some(Ok(true));
    assert_eq!(
        m.deploy("out", &log, at(200)).requests(),
        Step::Need(FsRequest::CopyTree { from: "src_dir".to_string(), to: "out".to_string() })
    );
    log.transfer = Some(Ok(()));
    assert_eq!(m.deploy("out", &log, at(200)).requests(), Step::Done(Ok(())));
    assert_eq!(m.deployed_path, Some("out".to_string()));
    assert_eq!(m.deployed_type, Some(DeployType::Directory));

    let mut off = UndeployLog::new();
    off.target = Some(facts(PathKind::Directory, None));
    off.entries = Some(Ok(Vec::new()));
    assert_eq!(m.deploy_off(&off, at(300)).requests(), Step::Need(FsRequest::Remove(Vec::new())));
    off.removed = Some(Ok(()));
    assert_eq!(m.deploy_off(&off, at(300)).requests(), Step::Done(Ok(())));
    let mut expected = start;
    expected.date_updated = at(300);
    assert_eq!(m, expected);
}

#[test]
fn deploy_copy_tree_failure_is_a_file_error() {
    let mut m = record("src_dir");
    let before = m.clone();
    let mut log = DeployLog::new();
    log.archive = Some(facts(PathKind::Directory, None));
    log.target = Some(facts(PathKind::Directory, None));
    log.empty = Some(Ok(true));
    log.transfer = Some(Err("disk full".to_string()));
    assert_eq!(
        m.deploy("out", &log, at(200)).requests(),
        Step::Done(Err(MetadataError::FileError("disk full".to_string())))
    );
    assert_eq!(m, before);
}

#[test]
fn deploy_unpack_failures_have_their_kinds() {
    let mut log = DeployLog::new();
    log.target = Some(facts(PathKind::Directory, None));
    log.empty = Some(Ok(true));
    log.transfer = Some(Err("bad".to_string()));
    let mut m = record("a.zip");
    log.archive = Some(facts(PathKind::File, Some("zip")));
    assert_eq!(
        m.deploy("out", &log, at(200)).requests(),
        Step::Done(Err(MetadataError::DecompressionError("bad".to_string())))
    );
    log.archive = Some(facts(PathKind::File, Some("rar")));
    assert_eq!(
        m.deploy("out", &log, at(200)).requests(),
        Step::Done(Err(MetadataError::DecompressionRARError("bad".to_string())))
    );
    assert_eq!(m.deployed_path, None);
}

#[test]
fn deploy_rar_asks_to_extract() {
    let mut m = record("a.rar");
    let mut log = DeployLog::new();
    log.archive = Some(facts(PathKind::File, Some("RAR")));
    log.target = Some(facts(PathKind::Directory, None));
    log.empty = Some(Ok(true));
    assert_eq!(
        m.deploy("out", &log, at(200)).requests(),
        Step::Need(FsRequest::Extract {
            format: ArchiveFormat::Rar,
            archive: "a.rar".to_string(),
            dest: "out".to_string(),
            password: None,
        })
    );
}

#[test]
fn deploy_7z_with_the_tool() {
    let mut m = record("a.7z");
    m.archive_password = Some("pw".to_string());
    let mut log = DeployLog::new();
    log.archive = Some(facts(PathKind::File, Some("7z")));
    log.target = Some(facts(PathKind::Directory, None));
    log.empty = Some(Ok(true));
    assert_eq!(
        m.deploy("out", &log, at(200)).requests(),
        Step::Need(FsRequest::ProbeTool(ToolCommand {
            program: "7z".to_string(),
            args: vec!["--help".to_string()],
            dir: None,
        }))
    );
    log.unpack.tool = Some(true);
    assert_eq!(m.deploy("out", &log, at(200)).requests(), Step::Need(FsRequest::Inspect("out".to_string())));
    log.unpack.dest = Some(facts(PathKind::Directory, None));
    assert_eq!(
        m.deploy("out", &log, at(200)).requests(),
        Step::Need(FsRequest::RunTool(ToolCommand {
            program: "7z".to_string(),
            args: vec![
                "x".to_string(),
                "a.7z".to_string(),
                "-oout".to_string(),
                "-aoa".to_string(),
                "-ppw".to_string(),
            ],
            dir: None,
        }))
    );
    log.unpack.outcome = Some(Err("wrong password".to_string()));
    assert_eq!(
        m.deploy("out", &log, at(200)).requests(),
        Step::Done(Err(MetadataError::DecompressionError("wrong password".to_string())))
    );
    assert_eq!(m.deployed_path, None);
    log.unpack.outcome = Some(Ok(()));
    assert_eq!(m.deploy("out", &log, at(200)).requests(), Step::Done(Ok(())));
    assert_eq!(m.deployed_path, Some("out".to_string()));
    assert_eq!(m.deployed_type, Some(DeployType::Directory));
}

#[test]
fn deploy_7z_in_process() {
    let mut m = record("a.7z");
    let mut log = DeployLog::new();
    log.archive = Some(facts(PathKind::File, Some("7z")));
    log.target = Some(facts(PathKind::Directory, None));
    log.empty = Some(Ok(true));
    log.unpack.tool = Some(false);
    assert_eq!(
        m.deploy("out", &log, at(200)).requests(),
        Step::Need(FsRequest::Extract {
            format: ArchiveFormat::SevenZip,
            archive: "a.7z".to_string(),
            dest: "out".to_string(),
            password: None,
        })
    );
    log.unpack.outcome = Some(Ok(()));
    assert_eq!(m.deploy("out", &log, at(200)).requests(), Step::Done(Ok(())));
    assert_eq!(m.deployed_type, Some(DeployType::Directory));
}

#[test]
fn deploy_other_file_copies_it_whatever_the_target_holds() {
    for extension in [Some("iso"), None] {
        let mut m = record("disc.iso");
        let mut log = DeployLog::new();
        log.archive = Some(facts(PathKind::File, extension));
        log.target = Some(facts(PathKind::Directory, None));
        log.empty = Some(Ok(false));
        assert_eq!(
        m.deploy("out", &log, at(200)).requests(),
            Step::Need(FsRequest::CopyInto { file: "disc.iso".to_string(), dir: "out".to_string() })
        );
        log.copied = Some(Ok("out/disc.iso".to_string()));
        assert_eq!(m.deploy("out", &log, at(200)).requests(), Step::Done(Ok(())));
        assert_eq!(m.deployed_path, Some("out/disc.iso".to_string()));
        assert_eq!(m.deployed_type, Some(DeployType::CopyFile));
        assert_eq!(m.date_updated, at(200));
    }
}

#[test]
fn deploy_copy_failure_is_a_file_error() {
    let mut m = record("disc.iso");
    let mut log = DeployLog::new();
    log.archive = Some(facts(PathKind::File, Some("iso")));
    log.target = Some(facts(PathKind::Directory, None));
    log.copied = Some(Err("denied".to_string()));
    assert_eq!(
        m.deploy("out", &log, at(200)).requests(),
        Step::Done(Err(MetadataError::FileError("denied".to_string())))
    );
    assert_eq!(m.deployed_path, None);
}

#[test]
fn deploy_of_odd_archive_fails() {
    let mut m = record("/dev/null");
    let mut log = DeployLog::new();
    log.archive = Some(facts(PathKind::Other, None));
    log.target = Some(facts(PathKind::Directory, None));
    assert_eq!(
        m.deploy("out", &log, at(200)).requests(),
        Step::Done(Err(MetadataError::InvalidMetadata(
            "Unexpected path type for archive /dev/null: /dev/null".to_string()
        )))
    );
}

#[test]
fn deploy_again_overwrites_the_deployment() {
    let mut m = record("disc.iso");
    m.deployed_path = Some("old/disc.iso".to_string());
    m.deployed_type = Some(DeployType::CopyFile);
    let mut log = DeployLog::new();
    log.archive = Some(facts(PathKind::Directory, None));
    log.target = Some(facts(PathKind::Directory, None));
    log.empty = Some(Ok(true));
    log.transfer = Some(Ok(()));
    assert_eq!(m.deploy("new", &log, at(200)).requests(), Step::Done(Ok(())));
    assert_eq!(m.deployed_path, Some("new".to_string()));
    assert_eq!(m.deployed_type, Some(DeployType::Directory));
}

#[test]
fn deploy_off_copied_file() {
    let mut m = record("disc.iso");
    m.deployed_path = Some("out/disc.iso".to_string());
    m.deployed_type = Some(DeployType::CopyFile);
    let mut off = UndeployLog::new();
    off.target = Some(facts(PathKind::File, Some("iso")));
    assert_eq!(
        m.deploy_off(&off, at(300)).requests(),
        Step::Need(FsRequest::Remove(vec![Removal {
            path: "out/disc.iso".to_string(),
            recursive: false
        }]))
    );
    off.removed = Some(Err("busy".to_string()));
    assert_eq!(
        m.deploy_off(&off, at(300)).requests(),
        Step::Done(Err(MetadataError::FileError("busy".to_string())))
    );
    assert_eq!(m.deployed_path, Some("out/disc.iso".to_string()));
    assert_eq!(m.date_updated, at(100));
    off.removed = Some(Ok(()));
    assert_eq!(m.deploy_off(&off, at(300)).requests(), Step::Done(Ok(())));
    assert_eq!(m.deployed_path, None);
    assert_eq!(m.deployed_type, None);
}

#[test]
fn deploy_off_normalises_a_record_that_is_not_deployed() {
    let invalid = Step::Done(Err(MetadataError::InvalidOperation(
        "Trying to deploy off 'Game' without a valid deployed path".to_string(),
    )));
    let mut m = record("a");
    assert_eq!(m.deploy_off(&UndeployLog::new(), at(300)), invalid);
    assert_eq!(m.date_updated, at(300));

    let mut m = record("a");
    m.deployed_path = Some("out".to_string());
    assert_eq!(m.deploy_off(&UndeployLog::new(), at(300)), invalid);
    assert_eq!(m.deployed_path, None);
    assert_eq!(m.deployed_type, None);

    let mut m = record("a");
    m.deployed_type = Some(DeployType::Directory);
    assert_eq!(m.deploy_off(&UndeployLog::new(), at(300)), invalid);
    assert_eq!(m.deployed_type, None);
}

#[test]
fn deploy_off_normalises_when_the_target_is_not_what_was_deployed() {
    let invalid = Step::Done(Err(MetadataError::InvalidOperation(
        "Trying to deploy off 'Game' without a valid deployed path".to_string(),
    )));
    for (kind, found) in [
        (DeployType::Directory, PathKind::Missing),
        (DeployType::Directory, PathKind::File),
        (DeployType::Directory, PathKind::Other),
        (DeployType::CopyFile, PathKind::Missing),
        (DeployType::CopyFile, PathKind::Directory),
    ] {
        let mut m = record("a");
        m.deployed_path = Some("out".to_string());
        m.deployed_type = Some(kind);
        let mut off = UndeployLog::new();
        off.target = Some(facts(found, None));
        assert_eq!(m.deploy_off(&off, at(300)), invalid);
        assert_eq!(m.deployed_path, None);
        assert_eq!(m.deployed_type, None);
        assert_eq!(m.date_updated, at(300));
    }
}

#[test]
fn deploy_off_listing_failure_leaves_the_record() {
    let mut m = record("a");
    m.deployed_path = Some("out".to_string());
    m.deployed_type = Some(DeployType::Directory);
    let before = m.clone();
    let mut off = UndeployLog::new();
    off.target = Some(facts(PathKind::Directory, None));
    off.entries = Some(Err("denied".to_string()));
    assert_eq!(
        m.deploy_off(&off, at(300)).requests(),
        Step::Done(Err(MetadataError::FileError("denied".to_string())))
    );
    assert_eq!(m, before);
}

#[test]
fn remove_and_update_deploy_info() {
    let mut m = record("a");
    m.update_deployed_path("out".to_string(), DeployType::CopyFile, at(150));
    assert_eq!(m.deployed_path, Some("out".to_string()));
    assert_eq!(m.deployed_type, Some(DeployType::CopyFile));
    assert_eq!(m.date_updated, at(150));
    m.remove_deploy_info(at(160));
    assert_eq!(m.deployed_path, None);
    assert_eq!(m.deployed_type, None);
    assert_eq!(m.date_updated, at(160));
}

#[test]
fn create_archive_from_directory() {
    let platform = Platform::DLSite;
    let platform_id = Some("RJ1".to_string());
    let password = Some("pw".to_string());
    let run = |log: &CreateLog| {
        Metadata::new_on_create_archive(
            "new-id", at(700), "Title", &platform, &platform_id, "src", "dst/RJ1.7z", &password, log,
        )
    };
    let mut log = CreateLog::new();
    assert_eq!(run(&log).requests(), Step::Need(FsRequest::Inspect("src".to_string())));
    log.origin = Some(facts(PathKind::Directory, None));
    assert!(matches!(run(&log).requests(), Step::Need(FsRequest::ProbeTool(_))));
    log.pack.tool = Some(false);
    assert_eq!(
        run(&log).requests(),
        Step::Need(FsRequest::Compress {
            dir: "src".to_string(),
            archive: "dst/RJ1.7z".to_string(),
            password: Some("pw".to_string()),
            level: 9,
        })
    );
    log.pack.outcome = Some(Ok(()));
    assert_eq!(run(&log).requests(), Step::Need(FsRequest::Measure("dst/RJ1.7z".to_string())));
    log.size = Some(ArchiveProbe::File(4096));
    let made = match run(&log) {
        Step::Done(Ok(m)) => m,
        other => panic!("unexpected step {:?}", other),
    };
    let mut expected = Metadata::with_identity(
        "new-id".to_string(),
        at(700),
        "Title".to_string(),
        Platform::DLSite,
        Some("RJ1".to_string()),
        "dst/RJ1.7z".to_string(),
    );
    expected.size_bytes = Some(4096);
    expected.archive_password = Some("pw".to_string());
    assert_eq!(made, expected);
}

#[test]
fn create_archive_ignores_a_failed_measurement() {
    let mut log = CreateLog::new();
    log.origin = Some(facts(PathKind::Directory, None));
    log.pack.tool = Some(true);
    log.pack.outcome = Some(Ok(()));
    log.size = Some(ArchiveProbe::Missing);
    let step = Metadata::new_on_create_archive(
        "i", at(1), "T", &Platform::Unknown, &None, "src", "dst.7z", &None, &log,
    );
    match step {
        Step::Done(Ok(m)) => {
            assert_eq!(m.size_bytes, None);
            assert_eq!(m.archive_password, None);
            assert_eq!(m.archive_path, Some("dst.7z".to_string()));
        }
        other => panic!("unexpected step {:?}", other),
    }
}

#[test]
fn create_archive_rejects_an_origin_that_is_no_directory() {
    for kind in [PathKind::Missing, PathKind::File, PathKind::Other] {
        let mut log = CreateLog::new();
        log.origin = Some(facts(kind, None));
        assert_eq!(
        Metadata::new_on_create_archive(
                "i", at(1), "T", &Platform::Unknown, &None, "src", "dst.7z", &None, &log,
            ).requests(),
            Step::Done(Err(MetadataError::InvalidOrigin("src".to_string())))
        );
    }
}

#[test]
fn create_archive_reports_a_failed_packing() {
    let mut log = CreateLog::new();
    log.origin = Some(facts(PathKind::Directory, None));
    log.pack.tool = Some(true);
    log.pack.outcome = Some(Err("no space".to_string()));
    assert_eq!(
        Metadata::new_on_create_archive(
            "i", at(1), "T", &Platform::Unknown, &None, "src", "dst.7z", &None, &log,
        ).requests(),
        Step::Done(Err(MetadataError::CompressionError("no space".to_string())))
    );
}
