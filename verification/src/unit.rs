//! The record of one game, and the builder that makes one field by
//! field.

use vstd::prelude::*;
use crate::effect::{ArchiveProbe, Ask, FsRequest, FsRequestView, Step};
use crate::metadata::{
    decide_deploy, decide_size, decide_undeploy, deploy_asks_for_what_is_missing,
    deploy_off_asks_for_what_is_missing, deploy_slot, deploy_verdict, metadata_default_id,
    pending_deploy, pending_undeploy, size_verdict, undeploy_slot,
    undeploy_verdict, Decision, DeployLog, DeploySlot, MetadataErrorView, OffDecision, OffVerdict,
    UndeployLog, UndeploySlot, Verdict,
};
use crate::text::{join2, join3, opt_text};
use crate::time::Timestamp;

verus! {

/// Why a game record could not be built.
#[derive(Debug, Clone, PartialEq, Eq)]
pub enum GameMetadataBuilderError {
    /// A field that has no default was not given.
    UninitializedField(&'static str),
    /// The fields do not go together.
    ValidationError(String),
}

/// The mathematical content of a `GameMetadataBuilderError`.
pub enum BuilderErrorView {
    UninitializedField(Seq<char>),
    ValidationError(Seq<char>),
}

impl View for GameMetadataBuilderError {
    type V = BuilderErrorView;

    open spec fn view(&self) -> BuilderErrorView {
        match *self {
            GameMetadataBuilderError::UninitializedField(name) => BuilderErrorView::UninitializedField(
                name@,
            ),
            GameMetadataBuilderError::ValidationError(why) => BuilderErrorView::ValidationError(why@),
        }
    }
}

impl BuilderErrorView {
    /// The message that a reader is shown.
    pub open spec fn message(self) -> Seq<char> {
        match self {
            BuilderErrorView::UninitializedField(name) => "`"@ + name + "` must be initialized"@,
            BuilderErrorView::ValidationError(why) => why,
        }
    }
}

impl GameMetadataBuilderError {
    /// The message that a reader is shown.
    pub fn to_text(&self) -> (r: String)
        ensures
            r@ == self@.message(),
    {
        match self {
            GameMetadataBuilderError::UninitializedField(name) => join3(
                "`",
                name,
                "` must be initialized",
            ),
            GameMetadataBuilderError::ValidationError(why) => why.clone(),
        }
    }
}

/// Why an operation on a game record failed.
#[derive(Debug, Clone, PartialEq, Eq)]
pub enum MetadataError {
    /// The record could not be built.
    BuilderError(GameMetadataBuilderError),
    /// The record does not describe what lies on the file system.
    InvalidMetadata(String),
    /// The file system reported a failure.
    FileError(String),
    /// Unpacking failed.
    DecompressionError(String),
    /// Unpacking a RAR archive failed.
    DecompressionRARError(String),
    /// The operation is not allowed in the state the record is in.
    InvalidOperation(String),
}

/// The mathematical content of a `MetadataError`.
pub enum GameErrorView {
    BuilderError(BuilderErrorView),
    InvalidMetadata(Seq<char>),
    FileError(Seq<char>),
    DecompressionError(Seq<char>),
    DecompressionRARError(Seq<char>),
    InvalidOperation(Seq<char>),
}

impl View for MetadataError {
    type V = GameErrorView;

    open spec fn view(&self) -> GameErrorView {
        match *self {
            MetadataError::BuilderError(e) => GameErrorView::BuilderError(e@),
            MetadataError::InvalidMetadata(s) => GameErrorView::InvalidMetadata(s@),
            MetadataError::FileError(s) => GameErrorView::FileError(s@),
            MetadataError::DecompressionError(s) => GameErrorView::DecompressionError(s@),
            MetadataError::DecompressionRARError(s) => GameErrorView::DecompressionRARError(s@),
            MetadataError::InvalidOperation(s) => GameErrorView::InvalidOperation(s@),
        }
    }
}

impl GameErrorView {
    /// The message that a reader is shown.
    pub open spec fn message(self) -> Seq<char> {
        match self {
            GameErrorView::BuilderError(e) => "Failed to build game metadata: "@ + e.message(),
            GameErrorView::InvalidMetadata(s) => "Invalid metadata: "@ + s,
            GameErrorView::FileError(s) => "FileSystem failure: "@ + s,
            GameErrorView::DecompressionError(s) => "Failed in decompressing: "@ + s,
            GameErrorView::DecompressionRARError(s) => "Failed in decompressing RAR: "@ + s,
            GameErrorView::InvalidOperation(s) => "Invalid operation: "@ + s,
        }
    }
}

/// The error of a game record that stands for an error of the life
/// cycle. Packing is no part of the life cycle of a game record, and
/// its errors stand as records that do not describe the file system.
pub open spec fn game_error(e: MetadataErrorView) -> GameErrorView {
    match e {
        MetadataErrorView::InvalidMetadata(s) => GameErrorView::InvalidMetadata(s),
        MetadataErrorView::InvalidOrigin(s) => GameErrorView::InvalidMetadata(s),
        MetadataErrorView::FileError(s) => GameErrorView::FileError(s),
        MetadataErrorView::CompressionError(s) => GameErrorView::InvalidMetadata(s),
        MetadataErrorView::DecompressionError(s) => GameErrorView::DecompressionError(s),
        MetadataErrorView::DecompressionRARError(s) => GameErrorView::DecompressionRARError(s),
        MetadataErrorView::InvalidOperation(s) => GameErrorView::InvalidOperation(s),
    }
}

impl MetadataError {
    /// The message that a reader is shown.
    pub fn to_text(&self) -> (r: String)
        ensures
            r@ == self@.message(),
    {
        match self {
            MetadataError::BuilderError(e) => join2(
                "Failed to build game metadata: ",
                e.to_text().as_str(),
            ),
            MetadataError::InvalidMetadata(s) => join2("Invalid metadata: ", s.as_str()),
            MetadataError::FileError(s) => join2("FileSystem failure: ", s.as_str()),
            MetadataError::DecompressionError(s) => join2("Failed in decompressing: ", s.as_str()),
            MetadataError::DecompressionRARError(s) => join2(
                "Failed in decompressing RAR: ",
                s.as_str(),
            ),
            MetadataError::InvalidOperation(s) => join2("Invalid operation: ", s.as_str()),
        }
    }

    /// The error of a game record that stands for an error of the life
    /// cycle.
    pub fn from_record_error(e: crate::metadata::MetadataError) -> (r: MetadataError)
        ensures
            r@ == game_error(e@),
    {
        match e {
            crate::metadata::MetadataError::InvalidMetadata(s) => MetadataError::InvalidMetadata(s),
            crate::metadata::MetadataError::InvalidOrigin(s) => MetadataError::InvalidMetadata(s),
            crate::metadata::MetadataError::FileError(s) => MetadataError::FileError(s),
            crate::metadata::MetadataError::CompressionError(s) => MetadataError::InvalidMetadata(s),
            crate::metadata::MetadataError::DecompressionError(s) => MetadataError::DecompressionError(
                s,
            ),
            crate::metadata::MetadataError::DecompressionRARError(s) => {
                MetadataError::DecompressionRARError(s)
            },
            crate::metadata::MetadataError::InvalidOperation(s) => MetadataError::InvalidOperation(s),
        }
    }
}

/// Where a game was obtained.
#[derive(Debug, Clone, PartialEq, Eq)]
pub enum GamePlatform {
    Unknown,
    Steam,
    DLSite,
    /// Any other source, by its name.
    Other(String),
}

/// The mathematical content of a `GamePlatform`.
pub enum GamePlatformView {
    Unknown,
    Steam,
    DLSite,
    Other(Seq<char>),
}

impl View for GamePlatform {
    type V = GamePlatformView;

    open spec fn view(&self) -> GamePlatformView {
        match *self {
            GamePlatform::Unknown => GamePlatformView::Unknown,
            GamePlatform::Steam => GamePlatformView::Steam,
            GamePlatform::DLSite => GamePlatformView::DLSite,
            GamePlatform::Other(name) => GamePlatformView::Other(name@),
        }
    }
}

/// In which form an archive lies deployed.
#[derive(Debug, Clone, Copy, PartialEq, Eq, Structural)]
pub enum DeployType {
    /// Its contents fill a directory.
    Directory,
    /// It was copied as one file.
    CopyFile,
}

/// The form of the life cycle that a form of a game record stands for.
pub open spec fn record_kind(kind: DeployType) -> crate::metadata::DeployType {
    match kind {
        DeployType::Directory => crate::metadata::DeployType::Directory,
        DeployType::CopyFile => crate::metadata::DeployType::CopyFile,
    }
}

/// The form of a game record that stands for a form of the life cycle.
pub open spec fn game_kind(kind: crate::metadata::DeployType) -> DeployType {
    match kind {
        crate::metadata::DeployType::Directory => DeployType::Directory,
        crate::metadata::DeployType::CopyFile => DeployType::CopyFile,
    }
}

/// The form of the life cycle that an optional form of a game record
/// stands for.
pub open spec fn record_kinds(kind: Option<DeployType>) -> Option<crate::metadata::DeployType> {
    match kind {
        Some(k) => Some(record_kind(k)),
        None => None,
    }
}

/// A label on a game.
#[derive(Debug, Clone, PartialEq, Eq)]
pub struct GameTag {
    pub name: String,
    pub category: Option<String>,
}

/// The mathematical content of a `GameTag`.
pub struct GameTagView {
    pub name: Seq<char>,
    pub category: Option<Seq<char>>,
}

impl View for GameTag {
    type V = GameTagView;

    open spec fn view(&self) -> GameTagView {
        GameTagView { name: self.name@, category: opt_text(self.category) }
    }
}

/// The content of each tag of a list.
pub open spec fn game_tag_views(tags: Seq<GameTag>) -> Seq<GameTagView> {
    tags.map_values(|t: GameTag| t@)
}

/// The record of one game.
#[derive(Debug, Clone, PartialEq, Eq)]
pub struct GameMetadata {
    pub id: String,
    pub title: String,
    pub original_title: Option<String>,
    pub platform: GamePlatform,
    pub platform_id: Option<String>,
    pub description: Option<String>,
    pub version: Option<String>,
    pub developer: Option<String>,
    pub publisher: Option<String>,
    pub release_date: Option<String>,
    pub archive_path: Option<String>,
    pub archive_password: Option<String>,
    pub deployed_path: Option<String>,
    pub deployed_type: Option<DeployType>,
    pub size_bytes: Option<u64>,
    pub tags: Vec<GameTag>,
    pub date_created: Timestamp,
    pub date_updated: Timestamp,
}

/// The mathematical content of a `GameMetadata`.
pub struct GameMetadataView {
    pub id: Seq<char>,
    pub title: Seq<char>,
    pub original_title: Option<Seq<char>>,
    pub platform: GamePlatformView,
    pub platform_id: Option<Seq<char>>,
    pub description: Option<Seq<char>>,
    pub version: Option<Seq<char>>,
    pub developer: Option<Seq<char>>,
    pub publisher: Option<Seq<char>>,
    pub release_date: Option<Seq<char>>,
    pub archive_path: Option<Seq<char>>,
    pub archive_password: Option<Seq<char>>,
    pub deployed_path: Option<Seq<char>>,
    pub deployed_type: Option<DeployType>,
    pub size_bytes: Option<u64>,
    pub tags: Seq<GameTagView>,
    pub date_created: Timestamp,
    pub date_updated: Timestamp,
}

impl View for GameMetadata {
    type V = GameMetadataView;

    open spec fn view(&self) -> GameMetadataView {
        GameMetadataView {
            id: self.id@,
            title: self.title@,
            original_title: opt_text(self.original_title),
            platform: self.platform@,
            platform_id: opt_text(self.platform_id),
            description: opt_text(self.description),
            version: opt_text(self.version),
            developer: opt_text(self.developer),
            publisher: opt_text(self.publisher),
            release_date: opt_text(self.release_date),
            archive_path: opt_text(self.archive_path),
            archive_password: opt_text(self.archive_password),
            deployed_path: opt_text(self.deployed_path),
            deployed_type: self.deployed_type,
            size_bytes: self.size_bytes,
            tags: game_tag_views(self.tags@),
            date_created: self.date_created,
            date_updated: self.date_updated,
        }
    }
}

/// Makes a game record field by field. The id and the title must be
/// given; every other field has a default.
#[derive(Debug, Clone, PartialEq, Eq)]
pub struct GameMetadataBuilder {
    id: Option<String>,
    title: Option<String>,
    original_title: Option<String>,
    platform: Option<GamePlatform>,
    platform_id: Option<String>,
    description: Option<String>,
    version: Option<String>,
    developer: Option<String>,
    publisher: Option<String>,
    release_date: Option<String>,
    archive_path: Option<String>,
    archive_password: Option<String>,
    deployed_path: Option<String>,
    deployed_type: Option<DeployType>,
    size_bytes: Option<u64>,
    tags: Option<Vec<GameTag>>,
    date_created: Option<Timestamp>,
    date_updated: Option<Timestamp>,
}

/// The mathematical content of a `GameMetadataBuilder`: the fields that
/// were given.
pub struct BuilderView {
    pub id: Option<Seq<char>>,
    pub title: Option<Seq<char>>,
    pub original_title: Option<Seq<char>>,
    pub platform: Option<GamePlatformView>,
    pub platform_id: Option<Seq<char>>,
    pub description: Option<Seq<char>>,
    pub version: Option<Seq<char>>,
    pub developer: Option<Seq<char>>,
    pub publisher: Option<Seq<char>>,
    pub release_date: Option<Seq<char>>,
    pub archive_path: Option<Seq<char>>,
    pub archive_password: Option<Seq<char>>,
    pub deployed_path: Option<Seq<char>>,
    pub deployed_type: Option<DeployType>,
    pub size_bytes: Option<u64>,
    pub tags: Option<Seq<GameTagView>>,
    pub date_created: Option<Timestamp>,
    pub date_updated: Option<Timestamp>,
}

impl View for GameMetadataBuilder {
    type V = BuilderView;

    closed spec fn view(&self) -> BuilderView {
        BuilderView {
            id: opt_text(self.id),
            title: opt_text(self.title),
            original_title: opt_text(self.original_title),
            platform: match self.platform {
                Some(p) => Some(p@),
                None => None,
            },
            platform_id: opt_text(self.platform_id),
            description: opt_text(self.description),
            version: opt_text(self.version),
            developer: opt_text(self.developer),
            publisher: opt_text(self.publisher),
            release_date: opt_text(self.release_date),
            archive_path: opt_text(self.archive_path),
            archive_password: opt_text(self.archive_password),
            deployed_path: opt_text(self.deployed_path),
            deployed_type: self.deployed_type,
            size_bytes: self.size_bytes,
            tags: match self.tags {
                Some(t) => Some(game_tag_views(t@)),
                None => None,
            },
            date_created: self.date_created,
            date_updated: self.date_updated,
        }
    }
}

impl BuilderView {
    /// The builder to which no field was given.
    pub open spec fn empty() -> BuilderView {
        BuilderView {
            id: None,
            title: None,
            original_title: None,
            platform: None,
            platform_id: None,
            description: None,
            version: None,
            developer: None,
            publisher: None,
            release_date: None,
            archive_path: None,
            archive_password: None,
            deployed_path: None,
            deployed_type: None,
            size_bytes: None,
            tags: None,
            date_created: None,
            date_updated: None,
        }
    }

    /// The field that is missing for a record, if any: the id, or else
    /// the title.
    pub open spec fn missing(self) -> Option<Seq<char>> {
        if self.id is None {
            Some("id"@)
        } else if self.title is None {
            Some("title"@)
        } else {
            None
        }
    }

    /// The record that the given fields make, with `created` and
    /// `updated` as its times where none were given. The platform is
    /// unknown and there are no tags where none were given.
    pub open spec fn record(self, created: Timestamp, updated: Timestamp) -> GameMetadataView
        recommends
            self.missing() is None,
    {
        GameMetadataView {
            id: self.id->0,
            title: self.title->0,
            original_title: self.original_title,
            platform: match self.platform {
                Some(p) => p,
                None => GamePlatformView::Unknown,
            },
            platform_id: self.platform_id,
            description: self.description,
            version: self.version,
            developer: self.developer,
            publisher: self.publisher,
            release_date: self.release_date,
            archive_path: self.archive_path,
            archive_password: self.archive_password,
            deployed_path: self.deployed_path,
            deployed_type: self.deployed_type,
            size_bytes: self.size_bytes,
            tags: match self.tags {
                Some(t) => t,
                None => Seq::empty(),
            },
            date_created: match self.date_created {
                Some(t) => t,
                None => created,
            },
            date_updated: match self.date_updated {
                Some(t) => t,
                None => updated,
            },
        }
    }
}

impl Default for GameMetadataBuilder {
    fn default() -> (r: GameMetadataBuilder)
        ensures
            r@ == BuilderView::empty(),
    {
        GameMetadataBuilder {
            id: None,
            title: None,
            original_title: None,
            platform: None,
            platform_id: None,
            description: None,
            version: None,
            developer: None,
            publisher: None,
            release_date: None,
            archive_path: None,
            archive_password: None,
            deployed_path: None,
            deployed_type: None,
            size_bytes: None,
            tags: None,
            date_created: None,
            date_updated: None,
        }
    }
}

impl GameMetadataBuilder {
    /// Gives the id.
    pub fn id(self, value: &str) -> (r: GameMetadataBuilder)
        ensures
            r@ == (BuilderView { id: Some(value@), ..self@ }),
    {
        let mut b = self;
        b.id = Some(String::from_str(value));
        b
    }

    /// Gives the title.
    pub fn title(self, value: &str) -> (r: GameMetadataBuilder)
        ensures
            r@ == (BuilderView { title: Some(value@), ..self@ }),
    {
        let mut b = self;
        b.title = Some(String::from_str(value));
        b
    }

    /// Gives the title in its first language.
    pub fn original_title(self, value: &str) -> (r: GameMetadataBuilder)
        ensures
            r@ == (BuilderView { original_title: Some(value@), ..self@ }),
    {
        let mut b = self;
        b.original_title = Some(String::from_str(value));
        b
    }

    /// Gives the platform.
    pub fn platform(self, value: GamePlatform) -> (r: GameMetadataBuilder)
        ensures
            r@ == (BuilderView { platform: Some(value@), ..self@ }),
    {
        let mut b = self;
        b.platform = Some(value);
        b
    }

    /// Gives the id of the game on its platform.
    pub fn platform_id(self, value: &str) -> (r: GameMetadataBuilder)
        ensures
            r@ == (BuilderView { platform_id: Some(value@), ..self@ }),
    {
        let mut b = self;
        b.platform_id = Some(String::from_str(value));
        b
    }

    /// Gives the description.
    pub fn description(self, value: &str) -> (r: GameMetadataBuilder)
        ensures
            r@ == (BuilderView { description: Some(value@), ..self@ }),
    {
        let mut b = self;
        b.description = Some(String::from_str(value));
        b
    }

    /// Gives the version.
    pub fn version(self, value: &str) -> (r: GameMetadataBuilder)
        ensures
            r@ == (BuilderView { version: Some(value@), ..self@ }),
    {
        let mut b = self;
        b.version = Some(String::from_str(value));
        b
    }

    /// Gives the developer.
    pub fn developer(self, value: &str) -> (r: GameMetadataBuilder)
        ensures
            r@ == (BuilderView { developer: Some(value@), ..self@ }),
    {
        let mut b = self;
        b.developer = Some(String::from_str(value));
        b
    }

    /// Gives the publisher.
    pub fn publisher(self, value: &str) -> (r: GameMetadataBuilder)
        ensures
            r@ == (BuilderView { publisher: Some(value@), ..self@ }),
    {
        let mut b = self;
        b.publisher = Some(String::from_str(value));
        b
    }

    /// Gives the date of the release.
    pub fn release_date(self, value: &str) -> (r: GameMetadataBuilder)
        ensures
            r@ == (BuilderView { release_date: Some(value@), ..self@ }),
    {
        let mut b = self;
        b.release_date = Some(String::from_str(value));
        b
    }

    /// Gives the path of the archive.
    pub fn archive_path(self, value: &str) -> (r: GameMetadataBuilder)
        ensures
            r@ == (BuilderView { archive_path: Some(value@), ..self@ }),
    {
        let mut b = self;
        b.archive_path = Some(String::from_str(value));
        b
    }

    /// Gives the password of the archive.
    pub fn archive_password(self, value: &str) -> (r: GameMetadataBuilder)
        ensures
            r@ == (BuilderView { archive_password: Some(value@), ..self@ }),
    {
        let mut b = self;
        b.archive_password = Some(String::from_str(value));
        b
    }

    /// Gives the path at which the archive lies deployed.
    pub fn deployed_path(self, value: &str) -> (r: GameMetadataBuilder)
        ensures
            r@ == (BuilderView { deployed_path: Some(value@), ..self@ }),
    {
        let mut b = self;
        b.deployed_path = Some(String::from_str(value));
        b
    }

    /// Gives the form in which the archive lies deployed.
    pub fn deployed_type(self, value: DeployType) -> (r: GameMetadataBuilder)
        ensures
            r@ == (BuilderView { deployed_type: Some(value), ..self@ }),
    {
        let mut b = self;
        b.deployed_type = Some(value);
        b
    }

    /// Gives the size of the archive.
    pub fn size_bytes(self, value: u64) -> (r: GameMetadataBuilder)
        ensures
            r@ == (BuilderView { size_bytes: Some(value), ..self@ }),
    {
        let mut b = self;
        b.size_bytes = Some(value);
        b
    }

    /// Gives the tags.
    pub fn tags(self, value: Vec<GameTag>) -> (r: GameMetadataBuilder)
        ensures
            r@ == (BuilderView { tags: Some(game_tag_views(value@)), ..self@ }),
    {
        let mut b = self;
        b.tags = Some(value);
        b
    }

    /// Gives the time of the creation.
    pub fn date_created(self, value: Timestamp) -> (r: GameMetadataBuilder)
        ensures
            r@ == (BuilderView { date_created: Some(value), ..self@ }),
    {
        let mut b = self;
        b.date_created = Some(value);
        b
    }

    /// Gives the time of the last update.
    pub fn date_updated(self, value: Timestamp) -> (r: GameMetadataBuilder)
        ensures
            r@ == (BuilderView { date_updated: Some(value), ..self@ }),
    {
        let mut b = self;
        b.date_updated = Some(value);
        b
    }

    /// The record that the given fields make, with `now` as its times
    /// where none were given. It fails where the id or the title was
    /// not given, with the name of the first of the two that is
    /// missing.
    pub fn build_at(self, now: Timestamp) -> (r: Result<GameMetadata, GameMetadataBuilderError>)
        ensures
            match self@.missing() {
                Some(name) => r matches Err(e) && e@ == BuilderErrorView::UninitializedField(name),
                None => r matches Ok(m) && m@ == self@.record(now, now),
            },
    {
        let id = match self.id {
            Some(id) => id,
            None => {
                return Err(GameMetadataBuilderError::UninitializedField("id"));
            },
        };
        let title = match self.title {
            Some(title) => title,
            None => {
                return Err(GameMetadataBuilderError::UninitializedField("title"));
            },
        };
        let tags = match self.tags {
            Some(t) => t,
            None => {
                let t: Vec<GameTag> = Vec::new();
                assert(game_tag_views(t@) =~= Seq::<GameTagView>::empty());
                t
            },
        };
        Ok(
            GameMetadata {
                id,
                title,
                original_title: self.original_title,
                platform: match self.platform {
                    Some(p) => p,
                    None => GamePlatform::Unknown,
                },
                platform_id: self.platform_id,
                description: self.description,
                version: self.version,
                developer: self.developer,
                publisher: self.publisher,
                release_date: self.release_date,
                archive_path: self.archive_path,
                archive_password: self.archive_password,
                deployed_path: self.deployed_path,
                deployed_type: self.deployed_type,
                size_bytes: self.size_bytes,
                tags,
                date_created: match self.date_created {
                    Some(t) => t,
                    None => now,
                },
                date_updated: match self.date_updated {
                    Some(t) => t,
                    None => now,
                },
            },
        )
    }

    /// The record that the given fields make, with the present instant
    /// as its times where none were given. It fails where the id or the
    /// title was not given.
    pub fn build(self) -> (r: Result<GameMetadata, GameMetadataBuilderError>)
        ensures
            match self@.missing() {
                Some(name) => r matches Err(e) && e@ == BuilderErrorView::UninitializedField(name),
                None => r matches Ok(m) && exists|now: Timestamp| m@ == #[trigger] self@.record(now, now),
            },
    {
        self.build_at(Timestamp::now())
    }
}


impl GameMetadataView {
    /// The record of a game of this identity and title that was just
    /// made: nothing else is known of it.
    pub open spec fn fresh(id: Seq<char>, now: Timestamp, title: Seq<char>) -> GameMetadataView {
        (BuilderView { id: Some(id), title: Some(title), ..BuilderView::empty() }).record(now, now)
    }

    /// The record, deployed at `path` in form `kind` at `now`.
    pub open spec fn deployed(self, path: Seq<char>, kind: DeployType, now: Timestamp) -> GameMetadataView {
        GameMetadataView {
            deployed_path: Some(path),
            deployed_type: Some(kind),
            date_updated: now,
            ..self
        }
    }

    /// The record, not deployed any more at `now`.
    pub open spec fn undeployed(self, now: Timestamp) -> GameMetadataView {
        GameMetadataView { deployed_path: None, deployed_type: None, date_updated: now, ..self }
    }

    /// What deploying the record to `target` has come to.
    pub open spec fn deploy_verdict(self, target: Seq<char>, log: DeployLog) -> Verdict {
        deploy_verdict(self.title, self.archive_path, self.archive_password, target, log)
    }

    /// The record after a step of deploying it to `target` at `now`.
    pub open spec fn after_deploy(self, target: Seq<char>, log: DeployLog, now: Timestamp) -> GameMetadataView {
        match self.deploy_verdict(target, log) {
            Verdict::Settle { path, kind } => self.deployed(path, game_kind(kind), now),
            _ => self,
        }
    }

    /// What deploying the record off has come to.
    pub open spec fn undeploy_verdict(self, log: UndeployLog) -> OffVerdict {
        undeploy_verdict(self.deployed_path, record_kinds(self.deployed_type), log)
    }

    /// The record after a step of deploying it off at `now`.
    pub open spec fn after_deploy_off(self, log: UndeployLog, now: Timestamp) -> GameMetadataView {
        match self.undeploy_verdict(log) {
            OffVerdict::Normalise | OffVerdict::Clear => self.undeployed(now),
            _ => self,
        }
    }

    /// The record after a step of measuring its archive.
    pub open spec fn after_size(self, probe: ArchiveProbe) -> GameMetadataView {
        match size_verdict(self.title, self.archive_path, probe) {
            Ok(Some(size)) => GameMetadataView { size_bytes: Some(size), ..self },
            _ => self,
        }
    }
}

/// A step of an operation on a game record, as mathematical content.
pub type GameStep = Step<FsRequestView, Result<(), GameErrorView>>;

/// The content of a step of an operation on a game record.
pub open spec fn game_step(s: Step<FsRequest, Result<(), MetadataError>>) -> GameStep {
    match s {
        Step::Need(r) => Step::Need(r@),
        Step::Done(Ok(())) => Step::Done(Ok(())),
        Step::Done(Err(e)) => Step::Done(Err(e@)),
    }
}

/// The step of an operation on a game record that stands for a step of
/// the life cycle.
pub open spec fn as_game_step(s: crate::metadata::RecordStep) -> GameStep {
    match s {
        Step::Need(r) => Step::Need(r),
        Step::Done(Ok(())) => Step::Done(Ok(())),
        Step::Done(Err(e)) => Step::Done(Err(game_error(e))),
    }
}

fn to_record_kind(kind: &Option<DeployType>) -> (r: Option<crate::metadata::DeployType>)
    ensures
        r == record_kinds(*kind),
{
    match kind {
        Some(DeployType::Directory) => Some(crate::metadata::DeployType::Directory),
        Some(DeployType::CopyFile) => Some(crate::metadata::DeployType::CopyFile),
        None => None,
    }
}

fn to_game_kind(kind: crate::metadata::DeployType) -> (r: DeployType)
    ensures
        r == game_kind(kind),
{
    match kind {
        crate::metadata::DeployType::Directory => DeployType::Directory,
        crate::metadata::DeployType::CopyFile => DeployType::CopyFile,
    }
}

impl GameMetadata {
    fn initial_builder(title: &str) -> (r: GameMetadataBuilder)
        ensures
            r@ == (BuilderView { id: r@.id, title: Some(title@), ..BuilderView::empty() }),
            r@.id is Some,
    {
        GameMetadataBuilder::default().id(metadata_default_id().as_str()).title(title)
    }

    /// The record of a game from Steam with this title, id on Steam
    /// and archive, with a random identifier and made at the present
    /// instant.
    pub fn from_steam(title: &str, app_id: &str, archive_path: &str) -> (r: Result<
        GameMetadata,
        MetadataError,
    >)
        ensures
            r matches Ok(m) && m@ == (GameMetadataView {
                platform: GamePlatformView::Steam,
                platform_id: Some(app_id@),
                archive_path: Some(archive_path@),
                ..GameMetadataView::fresh(m.id@, m.date_created, title@)
            }),
    {
        match GameMetadata::initial_builder(title).platform(GamePlatform::Steam).platform_id(
            app_id,
        ).archive_path(archive_path).build() {
            Ok(m) => Ok(m),
            Err(e) => Err(MetadataError::BuilderError(e)),
        }
    }

    /// The record of a game from DLSite with this title, id on DLSite
    /// and archive, with a random identifier and made at the present
    /// instant.
    pub fn from_dl(title: &str, dl_id: &str, archive_path: &str) -> (r: Result<
        GameMetadata,
        MetadataError,
    >)
        ensures
            r matches Ok(m) && m@ == (GameMetadataView {
                platform: GamePlatformView::DLSite,
                platform_id: Some(dl_id@),
                archive_path: Some(archive_path@),
                ..GameMetadataView::fresh(m.id@, m.date_created, title@)
            }),
    {
        match GameMetadata::initial_builder(title).platform(GamePlatform::DLSite).platform_id(
            dl_id,
        ).archive_path(archive_path).build() {
            Ok(m) => Ok(m),
            Err(e) => Err(MetadataError::BuilderError(e)),
        }
    }

    /// The record of a game from an unknown source with this title and
    /// archive, with a random identifier and made at the present
    /// instant.
    pub fn form_unknown(title: &str, archive_path: &str) -> (r: Result<GameMetadata, MetadataError>)
        ensures
            r matches Ok(m) && m@ == (GameMetadataView {
                platform: GamePlatformView::Unknown,
                archive_path: Some(archive_path@),
                ..GameMetadataView::fresh(m.id@, m.date_created, title@)
            }),
    {
        match GameMetadata::initial_builder(title).platform(GamePlatform::Unknown).archive_path(
            archive_path,
        ).build() {
            Ok(m) => Ok(m),
            Err(e) => Err(MetadataError::BuilderError(e)),
        }
    }

    /// Records the size of the archive as `probe` found it, and gives
    /// it. A record that names no archive stays as it is, and the
    /// result is zero. It is a failure, which leaves the record as it
    /// is, that nothing lies at the archive path, that the length of
    /// the file could not be read, or that what lies there is neither
    /// file nor directory.
    pub fn calculate_size(&mut self, probe: &ArchiveProbe) -> (r: Result<u64, MetadataError>)
        ensures
            match size_verdict(old(self)@.title, old(self)@.archive_path, *probe) {
                Ok(Some(size)) => r == Ok::<u64, MetadataError>(size),
                Ok(None) => r == Ok::<u64, MetadataError>(0),
                Err(e) => r matches Err(x) && x@ == game_error(e),
            },
            final(self)@ == old(self)@.after_size(*probe),
    {
        match decide_size(self.title.as_str(), &self.archive_path, probe) {
            Ok(Some(size)) => {
                self.size_bytes = Some(size);
                Ok(size)
            },
            Ok(None) => Ok(0),
            Err(e) => Err(MetadataError::from_record_error(e)),
        }
    }

    /// Forgets the deployment. The time of the last update stays.
    pub fn remove_deploy_info(&mut self)
        ensures
            final(self)@ == (GameMetadataView {
                deployed_path: None,
                deployed_type: None,
                ..old(self)@
            }),
    {
        self.deployed_path = None;
        self.deployed_type = None;
    }

    /// Records that the game was updated at `now`.
    pub fn mark_updated_at(&mut self, now: Timestamp)
        ensures
            final(self)@ == (GameMetadataView { date_updated: now, ..old(self)@ }),
    {
        self.date_updated = now;
    }

    /// Records that the game was updated at the present instant: the
    /// time of the update becomes a reading of the clock, and all else
    /// stays as it was.
    pub fn mark_updated(&mut self)
        ensures
            final(self)@ == (GameMetadataView {
                date_updated: final(self).date_updated,
                ..old(self)@
            }),
            final(self).date_updated.is_reading(),
    {
        self.mark_updated_at(Timestamp::now());
    }

    /// Deploys the archive of the game to `path`, as far as the
    /// answers in `log` allow: the result is the next request, or the
    /// end of the deployment. The record changes only when the
    /// deployment has succeeded: it is then deployed, at `path` as a
    /// directory or at the path of the copied file, and updated at
    /// `now`.
    pub fn deploy(&mut self, path: &str, log: &DeployLog, now: Timestamp) -> (r: Step<
        Ask<FsRequest, DeploySlot>,
        Result<(), MetadataError>,
    >)
        ensures
            game_step(r.bare()) == as_game_step(old(self)@.deploy_verdict(path@, *log).step()),
            r.slot() == deploy_slot(old(self)@.archive_path, *log),
            final(self)@ == old(self)@.after_deploy(path@, *log, now),
    {
        proof {
            deploy_asks_for_what_is_missing(
                self@.title,
                self@.archive_path,
                self@.archive_password,
                path@,
                *log,
            );
        }
        match decide_deploy(self.title.as_str(), &self.archive_path, &self.archive_password, path, log) {
            Decision::Ask(request) => Step::Need(
                Ask { request, slot: pending_deploy(&self.archive_path, log).unwrap() },
            ),
            Decision::Refuse(e) => Step::Done(Err(MetadataError::from_record_error(e))),
            Decision::Settle { path: deployed, kind } => {
                self.deployed_path = Some(deployed);
                self.deployed_type = Some(to_game_kind(kind));
                self.mark_updated_at(now);
                Step::Done(Ok(()))
            },
        }
    }

    /// Deploys the game off, as far as the answers in `log` allow: the
    /// result is the next request, or the end of the operation. When
    /// the record is not deployed where it says, the deployment is
    /// forgotten and the operation fails as invalid; when the removal
    /// has succeeded, the deployment is forgotten; either way the
    /// record is updated at `now`. In every other case it stays as it
    /// is.
    pub fn deploy_off(&mut self, log: &UndeployLog, now: Timestamp) -> (r: Step<
        Ask<FsRequest, UndeploySlot>,
        Result<(), MetadataError>,
    >)
        ensures
            game_step(r.bare()) == as_game_step(
                old(self)@.undeploy_verdict(*log).step(old(self)@.title),
            ),
            r.slot() == undeploy_slot(
                old(self)@.deployed_path,
                record_kinds(old(self)@.deployed_type),
                *log,
            ),
            final(self)@ == old(self)@.after_deploy_off(*log, now),
    {
        proof {
            deploy_off_asks_for_what_is_missing(
                self@.deployed_path,
                record_kinds(self@.deployed_type),
                *log,
            );
        }
        let kind = to_record_kind(&self.deployed_type);
        match decide_undeploy(&self.deployed_path, &kind, log) {
            OffDecision::Ask(request) => Step::Need(
                Ask { request, slot: pending_undeploy(&self.deployed_path, &kind, log).unwrap() },
            ),
            OffDecision::Normalise => {
                self.remove_deploy_info();
                self.mark_updated_at(now);
                Step::Done(
                    Err(
                        MetadataError::InvalidOperation(
                            join3(
                                "Trying to deploy off '",
                                self.title.as_str(),
                                "' without a valid deployed path",
                            ),
                        ),
                    ),
                )
            },
            OffDecision::Refuse(e) => Step::Done(Err(MetadataError::from_record_error(e))),
            OffDecision::Clear => {
                self.remove_deploy_info();
                self.mark_updated_at(now);
                Step::Done(Ok(()))
            },
        }
    }
}

} // verus!
