use m_core::effect::{ArchiveProbe, FsRequest, PathFacts, PathKind, Step};
use m_core::metadata::{DeployLog, UndeployLog};
use m_core::time::Timestamp;
use m_core::unit::{
    DeployType, GameMetadata, GameMetadataBuilder, GameMetadataBuilderError, GamePlatform, GameTag,
    MetadataError,
};

fn at(secs: i64) -> Timestamp {
    Timestamp { secs, nanos: 0 }
}

fn game(archive: &str) -> GameMetadata {
    GameMetadataBuilder::default()
        .id("g-1")
        .title("Game")
        .archive_path(archive)
        .build_at(at(100))
        .unwrap()
}

#[test]
fn test_game_metadata_build() {
    let m = GameMetadataBuilder::default()
        .id("12")
        .title("Test Game")
        .platform(GamePlatform::Steam)
        .build()
        .unwrap();
    assert_eq!(m.id, "12");
    assert_eq!(m.title, "Test Game");
    assert_eq!(m.platform, GamePlatform::Steam);
}

#[test]
fn builder_defaults() {
    let m = GameMetadataBuilder::default().id("1").title("T").build_at(at(9)).unwrap();
    assert_eq!(m.platform, GamePlatform::Unknown);
    assert_eq!(m.original_title, None);
    assert_eq!(m.platform_id, None);
    assert_eq!(m.version, None);
    assert_eq!(m.archive_path, None);
    assert_eq!(m.deployed_path, None);
    assert_eq!(m.deployed_type, None);
    assert_eq!(m.size_bytes, None);
    assert!(m.tags.is_empty());
    assert_eq!(m.date_created, at(9));
    assert_eq!(m.date_updated, at(9));
}

#[test]
fn builder_keeps_every_field() {
    let tags = vec![GameTag { name: "rpg".to_string(), category: None }];
    let m = GameMetadataBuilder::default()
        .id("1")
        .title("T")
        .original_title("O")
        .platform(GamePlatform::Other("itch".to_string()))
        .platform_id("p")
        .description("d")
        .version("2.0")
        .developer("dev")
        .publisher("pub")
        .release_date("2020")
        .archive_path("a.zip")
        .archive_password("pw")
        .deployed_path("out")
        .deployed_type(DeployType::CopyFile)
        .size_bytes(12)
        .tags(tags.clone())
        .date_created(at(1))
        .date_updated(at(2))
        .build_at(at(9))
        .unwrap();
    assert_eq!(
        m,
        GameMetadata {
            id: "1".to_string(),
            title: "T".to_string(),
            original_title: Some("O".to_string()),
            platform: GamePlatform::Other("itch".to_string()),
            platform_id: Some("p".to_string()),
            description: Some("d".to_string()),
            version: Some("2.0".to_string()),
            developer: Some("dev".to_string()),
            publisher: Some("pub".to_string()),
            release_date: Some("2020".to_string()),
            archive_path: Some("a.zip".to_string()),
            archive_password: Some("pw".to_string()),
            deployed_path: Some("out".to_string()),
            deployed_type: Some(DeployType::CopyFile),
            size_bytes: Some(12),
            tags,
            date_created: at(1),
            date_updated: at(2),
        }
    );
}

#[test]
fn builder_names_the_missing_field() {
    assert_eq!(
        GameMetadataBuilder::default().title("T").build(),
        Err(GameMetadataBuilderError::UninitializedField("id"))
    );
    assert_eq!(
        GameMetadataBuilder::default().id("1").build(),
        Err(GameMetadataBuilderError::UninitializedField("title"))
    );
    assert_eq!(
        GameMetadataBuilder::default().build(),
        Err(GameMetadataBuilderError::UninitializedField("id"))
    );
    assert_eq!(
        GameMetadataBuilderError::UninitializedField("id").to_text(),
        "`id` must be initialized"
    );
    assert_eq!(GameMetadataBuilderError::ValidationError("why".to_string()).to_text(), "why");
}

#[test]
fn game_records_by_platform() {
    let s = GameMetadata::from_steam("Portal", "400", "p.7z").unwrap();
    assert_eq!(s.title, "Portal");
    assert_eq!(s.platform, GamePlatform::Steam);
    assert_eq!(s.platform_id, Some("400".to_string()));
    assert_eq!(s.archive_path, Some("p.7z".to_string()));
    assert_eq!(s.id.len(), 36);
    assert_eq!(s.date_created, s.date_updated);
    let d = GameMetadata::from_dl("Work", "RJ1", "w.zip").unwrap();
    assert_eq!(d.platform, GamePlatform::DLSite);
    assert_eq!(d.platform_id, Some("RJ1".to_string()));
    assert_ne!(d.id, s.id);
    let u = GameMetadata::form_unknown("Misc", "m.rar").unwrap();
    assert_eq!(u.platform, GamePlatform::Unknown);
    assert_eq!(u.platform_id, None);
    assert_eq!(u.archive_path, Some("m.rar".to_string()));
}

#[test]
fn game_size() {
    let mut g = game("a.zip");
    assert_eq!(g.calculate_size(&ArchiveProbe::File(10)), Ok(10));
    assert_eq!(g.size_bytes, Some(10));
    assert_eq!(g.calculate_size(&ArchiveProbe::Directory(60)), Ok(60));
    assert_eq!(g.size_bytes, Some(60));
    assert_eq!(
        g.calculate_size(&ArchiveProbe::Missing),
        Err(MetadataError::InvalidMetadata(
            "Trying to calculate size of 'Game' without a valid archive path".to_string()
        ))
    );
    assert_eq!(
        g.calculate_size(&ArchiveProbe::Unreadable("e".to_string())),
        Err(MetadataError::FileError("e".to_string()))
    );
    assert_eq!(g.size_bytes, Some(60));
    g.archive_path = None;
    assert_eq!(g.calculate_size(&ArchiveProbe::File(1)), Ok(0));
    assert_eq!(g.size_bytes, Some(60));
}

#[test]
fn game_deploy_and_deploy_off() {
    let mut g = game("disc.iso");
    let mut log = DeployLog::new();
    assert_eq!(g.deploy("out", &log, at(200)).requests(), Step::Need(FsRequest::Inspect("disc.iso".to_string())));
    log.archive = Some(PathFacts { kind: PathKind::File, extension: Some("iso".to_string()) });
    log.target = Some(PathFacts { kind: PathKind::Directory, extension: None });
    assert_eq!(
        g.deploy("out", &log, at(200)).requests(),
        Step::Need(FsRequest::CopyInto { file: "disc.iso".to_string(), dir: "out".to_string() })
    );
    log.copied = Some(Ok("out/disc.iso".to_string()));
    assert_eq!(g.deploy("out", &log, at(200)).requests(), Step::Done(Ok(())));
    assert_eq!(g.deployed_path, Some("out/disc.iso".to_string()));
    assert_eq!(g.deployed_type, Some(DeployType::CopyFile));
    assert_eq!(g.date_updated, at(200));

    let mut off = UndeployLog::new();
    off.target = Some(PathFacts { kind: PathKind::File, extension: None });
    off.removed = Some(Ok(()));
    assert_eq!(g.deploy_off(&off, at(300)).requests(), Step::Done(Ok(())));
    assert_eq!(g.deployed_path, None);
    assert_eq!(g.deployed_type, None);
    assert_eq!(g.date_updated, at(300));
}

#[test]
fn game_deploy_failures() {
    let mut g = game("a.rar");
    let before = g.clone();
    let mut log = DeployLog::new();
    log.archive = Some(PathFacts { kind: PathKind::File, extension: Some("rar".to_string()) });
    log.target = Some(PathFacts { kind: PathKind::Directory, extension: None });
    log.empty = Some(Ok(false));
    assert_eq!(
        g.deploy("out", &log, at(200)).requests(),
        Step::Done(Err(MetadataError::InvalidOperation(
            "Trying to deploy folder 'Game' to a non-empty directory: out".to_string()
        )))
    );
    log.empty = Some(Ok(true));
    log.transfer = Some(Err("bad".to_string()));
    assert_eq!(
        g.deploy("out", &log, at(200)).requests(),
        Step::Done(Err(MetadataError::DecompressionRARError("bad".to_string())))
    );
    assert_eq!(g, before);
    assert_eq!(
        g.deploy_off(&UndeployLog::new(), at(300)).requests(),
        Step::Done(Err(MetadataError::InvalidOperation(
            "Trying to deploy off 'Game' without a valid deployed path".to_string()
        )))
    );
    assert_eq!(g.date_updated, at(300));
}

#[test]
fn game_deploy_info_and_update() {
    let mut g = game("a");
    g.deployed_path = Some("out".to_string());
    g.deployed_type = Some(DeployType::Directory);
    g.remove_deploy_info();
    assert_eq!(g.deployed_path, None);
    assert_eq!(g.deployed_type, None);
    assert_eq!(g.date_updated, at(100));
    g.mark_updated_at(at(150));
    assert_eq!(g.date_updated, at(150));
    let before = g.clone();
    g.mark_updated();
    assert!(g.date_updated.secs > 1_600_000_000);
    assert!(g.date_updated.nanos < m_core::time::NANOS_LIMIT);
    g.date_updated = before.date_updated;
    assert_eq!(g, before);
}

#[test]
fn game_error_messages() {
    assert_eq!(
        MetadataError::BuilderError(GameMetadataBuilderError::UninitializedField("id")).to_text(),
        "Failed to build game metadata: `id` must be initialized"
    );
    assert_eq!(MetadataError::InvalidMetadata("x".to_string()).to_text(), "Invalid metadata: x");
    assert_eq!(MetadataError::FileError("x".to_string()).to_text(), "FileSystem failure: x");
    assert_eq!(
        MetadataError::DecompressionError("x".to_string()).to_text(),
        "Failed in decompressing: x"
    );
    assert_eq!(
        MetadataError::DecompressionRARError("x".to_string()).to_text(),
        "Failed in decompressing RAR: x"
    );
    assert_eq!(MetadataError::InvalidOperation("x".to_string()).to_text(), "Invalid operation: x");
    assert_eq!(
        MetadataError::from_record_error(m_core::metadata::MetadataError::FileError("x".to_string())),
        MetadataError::FileError("x".to_string())
    );
}
