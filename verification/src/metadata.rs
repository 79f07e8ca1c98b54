//! The record of one catalogue entry, and the life cycle of its
//! deployment.
//!
//! A record is either not deployed, with neither a deployed path nor a
//! deployed kind, or deployed at a path in one of two kinds. Deploying
//! unpacks or copies the record's archive; deploying off removes what was
//! put there. The record changes only once the work on the file system
//! has succeeded.

use vstd::prelude::*;
use crate::effect::{
    ArchiveFormat, ArchiveProbe, Ask, DirEntry, FsReply, FsRequest, FsRequestView, PathFacts,
    PathKind, Removal, RemovalView, ReplyKind, Step,
};
use crate::flate::{
    compress_dir_to_7z, compress_slot, decompress_7z_to_dir, decompress_slot, pack_slot,
    pack_step, unpack_slot, unpack_step, unpacked, PackLog, PackSlot, UnpackLog, UnpackSlot,
};
use crate::text::{copy_opt, eq_ignoring_case, join2, join3, opt_text, same_ignoring_case};
use crate::time::Timestamp;

verus! {

/// What kind of work an entry is.
#[derive(Debug, Clone, Copy, PartialEq, Eq, Structural)]
pub enum ContentType {
    Unknown,
    Game,
    Comic,
    Novel,
    Music,
    Anime,
}

impl ContentType {
    /// The name of the kind.
    pub open spec fn name(self) -> Seq<char> {
        match self {
            ContentType::Unknown => "Unknown"@,
            ContentType::Game => "Game"@,
            ContentType::Comic => "Comic"@,
            ContentType::Novel => "Novel"@,
            ContentType::Music => "Music"@,
            ContentType::Anime => "Anime"@,
        }
    }

    /// The name of the kind, as text.
    pub fn to_text(&self) -> (r: String)
        ensures
            r@ == self.name(),
    {
        match self {
            ContentType::Unknown => String::from_str("Unknown"),
            ContentType::Game => String::from_str("Game"),
            ContentType::Comic => String::from_str("Comic"),
            ContentType::Novel => String::from_str("Novel"),
            ContentType::Music => String::from_str("Music"),
            ContentType::Anime => String::from_str("Anime"),
        }
    }
}

impl Default for ContentType {
    fn default() -> (r: ContentType)
        ensures
            r == ContentType::Unknown,
    {
        ContentType::Unknown
    }
}

/// Where an entry was obtained.
#[derive(Debug, Clone, PartialEq, Eq)]
pub enum Platform {
    Unknown,
    Steam,
    DLSite,
    /// Any other source, by its name.
    Other(String),
}

/// The mathematical content of a `Platform`.
pub enum PlatformView {
    Unknown,
    Steam,
    DLSite,
    Other(Seq<char>),
}

impl PlatformView {
    /// The name of the source.
    pub open spec fn name(self) -> Seq<char> {
        match self {
            PlatformView::Unknown => "Unknown"@,
            PlatformView::Steam => "Steam"@,
            PlatformView::DLSite => "DLSite"@,
            PlatformView::Other(name) => name,
        }
    }
}

impl View for Platform {
    type V = PlatformView;

    open spec fn view(&self) -> PlatformView {
        match *self {
            Platform::Unknown => PlatformView::Unknown,
            Platform::Steam => PlatformView::Steam,
            Platform::DLSite => PlatformView::DLSite,
            Platform::Other(name) => PlatformView::Other(name@),
        }
    }
}

impl Platform {
    /// The name of the source, as text.
    pub fn to_text(&self) -> (r: String)
        ensures
            r@ == self@.name(),
    {
        match self {
            Platform::Unknown => String::from_str("Unknown"),
            Platform::Steam => String::from_str("Steam"),
            Platform::DLSite => String::from_str("DLSite"),
            Platform::Other(name) => name.clone(),
        }
    }

    /// A copy of the source.
    pub fn duplicate(&self) -> (r: Platform)
        ensures
            r@ == self@,
    {
        match self {
            Platform::Unknown => Platform::Unknown,
            Platform::Steam => Platform::Steam,
            Platform::DLSite => Platform::DLSite,
            Platform::Other(name) => Platform::Other(name.clone()),
        }
    }
}

impl Default for Platform {
    fn default() -> (r: Platform)
        ensures
            r@ == PlatformView::Unknown,
    {
        Platform::Unknown
    }
}

/// In which form an archive lies deployed.
#[derive(Debug, Clone, Copy, PartialEq, Eq, Structural)]
pub enum DeployType {
    /// Its contents fill a directory.
    Directory,
    /// It was copied as one file.
    CopyFile,
}

/// A label on an entry.
#[derive(Debug, Clone, PartialEq, Eq)]
pub struct Tag {
    pub name: String,
    pub category: Option<String>,
}

/// The mathematical content of a `Tag`.
pub struct TagView {
    pub name: Seq<char>,
    pub category: Option<Seq<char>>,
}

impl View for Tag {
    type V = TagView;

    open spec fn view(&self) -> TagView {
        TagView { name: self.name@, category: opt_text(self.category) }
    }
}

/// The content of each tag of a list.
pub open spec fn tag_views(tags: Seq<Tag>) -> Seq<TagView> {
    tags.map_values(|t: Tag| t@)
}

/// One catalogue entry.
#[derive(Debug, Clone, PartialEq, Eq)]
pub struct Metadata {
    pub id: String,
    pub title: String,
    pub original_title: Option<String>,
    pub content_type: ContentType,
    pub platform: Platform,
    pub platform_id: Option<String>,
    pub description: Option<String>,
    pub version: String,
    pub developer: Option<String>,
    pub publisher: Option<String>,
    pub release_date: Option<String>,
    pub archive_path: Option<String>,
    pub archive_password: Option<String>,
    pub deployed_path: Option<String>,
    pub deployed_type: Option<DeployType>,
    pub size_bytes: Option<u64>,
    pub tags: Vec<Tag>,
    pub date_created: Timestamp,
    pub date_updated: Timestamp,
}

/// The mathematical content of a `Metadata`.
pub struct MetadataView {
    pub id: Seq<char>,
    pub title: Seq<char>,
    pub original_title: Option<Seq<char>>,
    pub content_type: ContentType,
    pub platform: PlatformView,
    pub platform_id: Option<Seq<char>>,
    pub description: Option<Seq<char>>,
    pub version: Seq<char>,
    pub developer: Option<Seq<char>>,
    pub publisher: Option<Seq<char>>,
    pub release_date: Option<Seq<char>>,
    pub archive_path: Option<Seq<char>>,
    pub archive_password: Option<Seq<char>>,
    pub deployed_path: Option<Seq<char>>,
    pub deployed_type: Option<DeployType>,
    pub size_bytes: Option<u64>,
    pub tags: Seq<TagView>,
    pub date_created: Timestamp,
    pub date_updated: Timestamp,
}

impl View for Metadata {
    type V = MetadataView;

    open spec fn view(&self) -> MetadataView {
        MetadataView {
            id: self.id@,
            title: self.title@,
            original_title: opt_text(self.original_title),
            content_type: self.content_type,
            platform: self.platform@,
            platform_id: opt_text(self.platform_id),
            description: opt_text(self.description),
            version: self.version@,
            developer: opt_text(self.developer),
            publisher: opt_text(self.publisher),
            release_date: opt_text(self.release_date),
            archive_path: opt_text(self.archive_path),
            archive_password: opt_text(self.archive_password),
            deployed_path: opt_text(self.deployed_path),
            deployed_type: self.deployed_type,
            size_bytes: self.size_bytes,
            tags: tag_views(self.tags@),
            date_created: self.date_created,
            date_updated: self.date_updated,
        }
    }
}

impl MetadataView {
    /// Whether the record is deployed: it has a deployed path and a
    /// deployed kind.
    pub open spec fn is_deployed(self) -> bool {
        self.deployed_path is Some && self.deployed_type is Some
    }

    /// Whether the record is not deployed: it has neither a deployed
    /// path nor a deployed kind.
    pub open spec fn is_not_deployed(self) -> bool {
        self.deployed_path is None && self.deployed_type is None
    }

    /// What holds of every record that the life cycle produces: the
    /// deployed path and kind come together, and the record was not
    /// updated before it was created.
    pub open spec fn well_formed(self) -> bool {
        &&& self.is_deployed() || self.is_not_deployed()
        &&& self.date_updated.not_before(self.date_created)
    }

    /// The record, updated at `now`.
    pub open spec fn updated(self, now: Timestamp) -> MetadataView {
        MetadataView { date_updated: now, ..self }
    }

    /// The record, deployed at `path` in form `kind` at `now`.
    pub open spec fn deployed(self, path: Seq<char>, kind: DeployType, now: Timestamp) -> MetadataView {
        MetadataView {
            deployed_path: Some(path),
            deployed_type: Some(kind),
            date_updated: now,
            ..self
        }
    }

    /// The record, not deployed any more at `now`.
    pub open spec fn undeployed(self, now: Timestamp) -> MetadataView {
        MetadataView { deployed_path: None, deployed_type: None, date_updated: now, ..self }
    }

    /// The record with the size of its archive.
    pub open spec fn sized(self, size: u64) -> MetadataView {
        MetadataView { size_bytes: Some(size), ..self }
    }
}

/// Why an operation on a record failed.
#[derive(Debug, Clone, PartialEq, Eq)]
pub enum MetadataError {
    /// The record does not describe what lies on the file system.
    InvalidMetadata(String),
    /// The directory to pack is no directory.
    InvalidOrigin(String),
    /// The file system reported a failure.
    FileError(String),
    /// Packing failed.
    CompressionError(String),
    /// Unpacking failed.
    DecompressionError(String),
    /// Unpacking a RAR archive failed.
    DecompressionRARError(String),
    /// The operation is not allowed in the state the record is in.
    InvalidOperation(String),
}

/// The mathematical content of a `MetadataError`.
pub enum MetadataErrorView {
    InvalidMetadata(Seq<char>),
    InvalidOrigin(Seq<char>),
    FileError(Seq<char>),
    CompressionError(Seq<char>),
    DecompressionError(Seq<char>),
    DecompressionRARError(Seq<char>),
    InvalidOperation(Seq<char>),
}

impl View for MetadataError {
    type V = MetadataErrorView;

    open spec fn view(&self) -> MetadataErrorView {
        match *self {
            MetadataError::InvalidMetadata(s) => MetadataErrorView::InvalidMetadata(s@),
            MetadataError::InvalidOrigin(s) => MetadataErrorView::InvalidOrigin(s@),
            MetadataError::FileError(s) => MetadataErrorView::FileError(s@),
            MetadataError::CompressionError(s) => MetadataErrorView::CompressionError(s@),
            MetadataError::DecompressionError(s) => MetadataErrorView::DecompressionError(s@),
            MetadataError::DecompressionRARError(s) => MetadataErrorView::DecompressionRARError(s@),
            MetadataError::InvalidOperation(s) => MetadataErrorView::InvalidOperation(s@),
        }
    }
}

impl MetadataErrorView {
    /// The message that a reader is shown.
    pub open spec fn message(self) -> Seq<char> {
        match self {
            MetadataErrorView::InvalidMetadata(s) => "Invalid metadata: "@ + s,
            MetadataErrorView::InvalidOrigin(s) => "The provided origin path is invalid: "@ + s,
            MetadataErrorView::FileError(s) => "FileSystem failure: "@ + s,
            MetadataErrorView::CompressionError(s) => "Failed to compress: "@ + s,
            MetadataErrorView::DecompressionError(s) => "Failed in decompressing: "@ + s,
            MetadataErrorView::DecompressionRARError(s) => "Failed in decompressing RAR: "@ + s,
            MetadataErrorView::InvalidOperation(s) => "Invalid operation: "@ + s,
        }
    }
}

impl MetadataError {
    /// The message that a reader is shown.
    pub fn to_text(&self) -> (r: String)
        ensures
            r@ == self@.message(),
    {
        match self {
            MetadataError::InvalidMetadata(s) => join2("Invalid metadata: ", s.as_str()),
            MetadataError::InvalidOrigin(s) => join2(
                "The provided origin path is invalid: ",
                s.as_str(),
            ),
            MetadataError::FileError(s) => join2("FileSystem failure: ", s.as_str()),
            MetadataError::CompressionError(s) => join2("Failed to compress: ", s.as_str()),
            MetadataError::DecompressionError(s) => join2("Failed in decompressing: ", s.as_str()),
            MetadataError::DecompressionRARError(s) => join2(
                "Failed in decompressing RAR: ",
                s.as_str(),
            ),
            MetadataError::InvalidOperation(s) => join2("Invalid operation: ", s.as_str()),
        }
    }

    /// A copy of the error.
    pub fn duplicate(&self) -> (r: MetadataError)
        ensures
            r@ == self@,
    {
        match self {
            MetadataError::InvalidMetadata(s) => MetadataError::InvalidMetadata(s.clone()),
            MetadataError::InvalidOrigin(s) => MetadataError::InvalidOrigin(s.clone()),
            MetadataError::FileError(s) => MetadataError::FileError(s.clone()),
            MetadataError::CompressionError(s) => MetadataError::CompressionError(s.clone()),
            MetadataError::DecompressionError(s) => MetadataError::DecompressionError(s.clone()),
            MetadataError::DecompressionRARError(s) => MetadataError::DecompressionRARError(
                s.clone(),
            ),
            MetadataError::InvalidOperation(s) => MetadataError::InvalidOperation(s.clone()),
        }
    }
}


/// The version that a record has where none is given.
pub const VERSION_DEFAULT: &'static str = "1.0";

/// `uuid::Uuid::new_v4`, rendered with `to_string`: a random identifier
/// in its hyphenated form, which is 36 characters long. Nothing else is
/// claimed of it.
#[verifier::external_body]
fn fresh_id() -> (r: String)
    ensures
        r@.len() == 36,
{
    uuid::Uuid::new_v4().to_string()
}

/// The identifier that a record has where none is given: a random one.
pub fn metadata_default_id() -> (r: String)
    ensures
        r@.len() == 36,
{
    fresh_id()
}

/// The version that a record has where none is given.
pub fn metadata_default_version() -> (r: String)
    ensures
        r@ == VERSION_DEFAULT@,
{
    String::from_str(VERSION_DEFAULT)
}

/// The record of a new entry for an archive that exists.
pub open spec fn new_record(
    id: Seq<char>,
    now: Timestamp,
    title: Seq<char>,
    platform: PlatformView,
    platform_id: Option<Seq<char>>,
    archive_path: Seq<char>,
) -> MetadataView {
    MetadataView {
        id,
        title,
        original_title: None,
        content_type: ContentType::Unknown,
        platform,
        platform_id,
        description: None,
        version: VERSION_DEFAULT@,
        developer: None,
        publisher: None,
        release_date: None,
        archive_path: Some(archive_path),
        archive_password: None,
        deployed_path: None,
        deployed_type: None,
        size_bytes: None,
        tags: Seq::empty(),
        date_created: now,
        date_updated: now,
    }
}

fn copy_tags(tags: &Vec<Tag>) -> (r: Vec<Tag>)
    ensures
        tag_views(r@) == tag_views(tags@),
{
    let mut out: Vec<Tag> = Vec::new();
    let mut i: usize = 0;
    while i < tags.len()
        invariant
            i <= tags.len(),
            out.len() == i,
            forall|j: int| 0 <= j < i ==> (#[trigger] out@[j])@ == tags@[j]@,
        decreases tags.len() - i,
    {
        out.push(Tag { name: tags[i].name.clone(), category: copy_opt(&tags[i].category) });
        i += 1;
    }
    assert(tag_views(out@) =~= tag_views(tags@));
    out
}

impl Metadata {
    /// The record of a new entry with the given identity, created at
    /// `now`, for an archive that exists.
    pub fn with_identity(
        id: String,
        now: Timestamp,
        title: String,
        platform: Platform,
        platform_id: Option<String>,
        archive_path: String,
    ) -> (r: Metadata)
        ensures
            r@ == new_record(id@, now, title@, platform@, opt_text(platform_id), archive_path@),
    {
        let r = Metadata {
            id,
            title,
            original_title: None,
            content_type: ContentType::Unknown,
            platform,
            platform_id,
            description: None,
            version: metadata_default_version(),
            developer: None,
            publisher: None,
            release_date: None,
            archive_path: Some(archive_path),
            archive_password: None,
            deployed_path: None,
            deployed_type: None,
            size_bytes: None,
            tags: Vec::new(),
            date_created: now,
            date_updated: now,
        };
        assert(tag_views(r.tags@) =~= Seq::empty());
        r
    }

    /// The record of a new entry for an archive that exists, with a
    /// random identifier and created at the present instant.
    pub fn new(
        title: String,
        platform: Platform,
        platform_id: Option<String>,
        archive_path: String,
    ) -> (r: Metadata)
        ensures
            r@ == new_record(
                r.id@,
                r.date_created,
                title@,
                platform@,
                opt_text(platform_id),
                archive_path@,
            ),
            r@.well_formed(),
    {
        Metadata::with_identity(
            metadata_default_id(),
            Timestamp::now(),
            title,
            platform,
            platform_id,
            archive_path,
        )
    }

    /// A copy of the record.
    pub fn duplicate(&self) -> (r: Metadata)
        ensures
            r@ == self@,
    {
        Metadata {
            id: self.id.clone(),
            title: self.title.clone(),
            original_title: copy_opt(&self.original_title),
            content_type: self.content_type,
            platform: self.platform.duplicate(),
            platform_id: copy_opt(&self.platform_id),
            description: copy_opt(&self.description),
            version: self.version.clone(),
            developer: copy_opt(&self.developer),
            publisher: copy_opt(&self.publisher),
            release_date: copy_opt(&self.release_date),
            archive_path: copy_opt(&self.archive_path),
            archive_password: copy_opt(&self.archive_password),
            deployed_path: copy_opt(&self.deployed_path),
            deployed_type: self.deployed_type,
            size_bytes: self.size_bytes,
            tags: copy_tags(&self.tags),
            date_created: self.date_created,
            date_updated: self.date_updated,
        }
    }

    /// Records that the entry was updated at `now`.
    pub fn mark_updated_at(&mut self, now: Timestamp)
        ensures
            final(self)@ == old(self)@.updated(now),
    {
        self.date_updated = now;
    }

    /// Records that the entry was updated at the present instant: the
    /// time of the update becomes a reading of the clock, and all else
    /// stays as it was.
    pub fn mark_updated(&mut self)
        ensures
            final(self)@ == old(self)@.updated(final(self).date_updated),
            final(self).date_updated.is_reading(),
    {
        self.mark_updated_at(Timestamp::now());
    }

    /// Forgets the deployment, at `now`.
    pub fn remove_deploy_info(&mut self, now: Timestamp)
        ensures
            final(self)@ == old(self)@.undeployed(now),
    {
        self.deployed_path = None;
        self.deployed_type = None;
        self.mark_updated_at(now);
    }

    /// Records a deployment at `path` in form `deploy_type`, at `now`.
    pub fn update_deployed_path(&mut self, path: String, deploy_type: DeployType, now: Timestamp)
        ensures
            final(self)@ == old(self)@.deployed(path@, deploy_type, now),
    {
        self.deployed_path = Some(path);
        self.deployed_type = Some(deploy_type);
        self.mark_updated_at(now);
    }
}


/// The message for a record that is to be deployed and names no archive.
pub open spec fn no_archive_message(title: Seq<char>) -> Seq<char> {
    "Trying to deploy '"@ + title + "' without an archive path"@
}

/// The message for a record that is to be deployed and whose archive is
/// gone.
pub open spec fn lost_archive_message(title: Seq<char>) -> Seq<char> {
    "Trying to deploy '"@ + title + "' without a valid archive path"@
}

/// The message for a deployment onto a file.
pub open spec fn file_target_message(title: Seq<char>, target: Seq<char>) -> Seq<char> {
    "Trying to deploy '"@ + title + "' to an existing file path: "@ + target
}

/// The message for a deployment into a directory that holds something.
pub open spec fn busy_target_message(title: Seq<char>, target: Seq<char>) -> Seq<char> {
    "Trying to deploy folder '"@ + title + "' to a non-empty directory: "@ + target
}

/// The message for an archive that is neither a file nor a directory.
pub open spec fn odd_archive_message(archive: Seq<char>) -> Seq<char> {
    "Unexpected path type for archive "@ + archive + ": "@ + archive
}

/// The message for a record that is to be measured and whose archive is
/// gone.
pub open spec fn unmeasurable_message(title: Seq<char>) -> Seq<char> {
    "Trying to calculate size of '"@ + title + "' without a valid archive path"@
}

/// The message for a record that is to be deployed off and is not
/// deployed where it says.
pub open spec fn not_deployed_message(title: Seq<char>) -> Seq<char> {
    "Trying to deploy off '"@ + title + "' without a valid deployed path"@
}

/// The format that an archive file is unpacked as, by the extension of
/// its name, whatever the case of its letters. A file of another
/// extension, or of none, is not unpacked.
pub open spec fn format_of(extension: Option<Seq<char>>) -> Option<ArchiveFormat> {
    match extension {
        Some(e) => if same_ignoring_case(e, "zip"@) {
            Some(ArchiveFormat::Zip)
        } else if same_ignoring_case(e, "rar"@) {
            Some(ArchiveFormat::Rar)
        } else if same_ignoring_case(e, "7z"@) {
            Some(ArchiveFormat::SevenZip)
        } else {
            None
        },
        None => None,
    }
}

/// The format that an archive file is unpacked as, by the extension of
/// its name.
pub fn archive_format(extension: &Option<String>) -> (r: Option<ArchiveFormat>)
    ensures
        r == format_of(opt_text(*extension)),
{
    match extension {
        Some(e) => if eq_ignoring_case(e.as_str(), "zip") {
            Some(ArchiveFormat::Zip)
        } else if eq_ignoring_case(e.as_str(), "rar") {
            Some(ArchiveFormat::Rar)
        } else if eq_ignoring_case(e.as_str(), "7z") {
            Some(ArchiveFormat::SevenZip)
        } else {
            None
        },
        None => None,
    }
}

/// The answers gathered while deploying.
#[derive(Clone, Debug, PartialEq, Eq)]
pub struct DeployLog {
    /// What lies at the archive path.
    pub archive: Option<PathFacts>,
    /// What lay at the target path before anything was done.
    pub target: Option<PathFacts>,
    /// How creating the target directory ended.
    pub created: Option<Result<(), String>>,
    /// Whether the target directory is empty.
    pub empty: Option<Result<bool, String>>,
    /// How copying a directory, or unpacking a zip or rar archive, ended.
    pub transfer: Option<Result<(), String>>,
    /// The answers gathered while unpacking a 7z archive.
    pub unpack: UnpackLog,
    /// How copying a single file ended: the path of the copy.
    pub copied: Option<Result<String, String>>,
}

/// The answers gathered while deploying off.
#[derive(Clone, Debug, PartialEq, Eq)]
pub struct UndeployLog {
    /// What lies at the deployed path.
    pub target: Option<PathFacts>,
    /// The entries of the deployed directory.
    pub entries: Option<Result<Vec<DirEntry>, String>>,
    /// How the removal ended.
    pub removed: Option<Result<(), String>>,
}

/// The answers gathered while packing a directory into the archive of a
/// new record.
#[derive(Clone, Debug, PartialEq, Eq)]
pub struct CreateLog {
    /// What lies at the directory to pack.
    pub origin: Option<PathFacts>,
    /// The answers gathered while packing.
    pub pack: PackLog,
    /// The measurement of the new archive.
    pub size: Option<ArchiveProbe>,
}

impl DeployLog {
    /// The log of a deployment that has not begun.
    pub fn new() -> (r: DeployLog)
        ensures
            r.archive is None,
            r.target is None,
            r.created is None,
            r.empty is None,
            r.transfer is None,
            r.unpack.tool is None,
            r.unpack.dest is None,
            r.unpack.created is None,
            r.unpack.outcome is None,
            r.copied is None,
    {
        DeployLog {
            archive: None,
            target: None,
            created: None,
            empty: None,
            transfer: None,
            unpack: UnpackLog::new(),
            copied: None,
        }
    }
}

impl UndeployLog {
    /// The log of a deploying off that has not begun.
    pub fn new() -> (r: UndeployLog)
        ensures
            r.target is None,
            r.entries is None,
            r.removed is None,
    {
        UndeployLog { target: None, entries: None, removed: None }
    }
}

impl CreateLog {
    /// The log of a packing that has not begun.
    pub fn new() -> (r: CreateLog)
        ensures
            r.origin is None,
            r.pack.tool is None,
            r.pack.outcome is None,
            r.size is None,
    {
        CreateLog { origin: None, pack: PackLog::new(), size: None }
    }
}

/// What a deployment has come to.
pub enum Verdict {
    /// It needs the answer to a request.
    Ask(FsRequestView),
    /// It failed, and the record stays as it was.
    Refuse(MetadataErrorView),
    /// It succeeded: the archive lies deployed at `path` in form `kind`.
    Settle { path: Seq<char>, kind: DeployType },
}

/// What a deployment has come to, as it is computed.
pub enum Decision {
    Ask(FsRequest),
    Refuse(MetadataError),
    Settle { path: String, kind: DeployType },
}

impl View for Decision {
    type V = Verdict;

    open spec fn view(&self) -> Verdict {
        match *self {
            Decision::Ask(r) => Verdict::Ask(r@),
            Decision::Refuse(e) => Verdict::Refuse(e@),
            Decision::Settle { path, kind } => Verdict::Settle { path: path@, kind },
        }
    }
}

/// A step of an operation on a record, as mathematical content.
pub type RecordStep = Step<FsRequestView, Result<(), MetadataErrorView>>;

impl Verdict {
    /// The step that the caller sees.
    pub open spec fn step(self) -> RecordStep {
        match self {
            Verdict::Ask(r) => Step::Need(r),
            Verdict::Refuse(e) => Step::Done(Err(e)),
            Verdict::Settle { .. } => Step::Done(Ok(())),
        }
    }
}

/// The content of a step of an operation on a record.
pub open spec fn record_step(s: Step<FsRequest, Result<(), MetadataError>>) -> RecordStep {
    match s {
        Step::Need(r) => Step::Need(r@),
        Step::Done(Ok(())) => Step::Done(Ok(())),
        Step::Done(Err(e)) => Step::Done(Err(e@)),
    }
}

/// What stands in the way of a transfer that needs an empty target: the
/// question whether it is empty, the failure to find out, or that it is
/// not. Nothing stands in the way once it is known to be empty.
pub open spec fn emptiness_verdict(title: Seq<char>, target: Seq<char>, log: DeployLog) -> Option<
    Verdict,
> {
    match log.empty {
        None => Some(Verdict::Ask(FsRequestView::IsEmpty(target))),
        Some(Err(e)) => Some(Verdict::Refuse(MetadataErrorView::FileError(e@))),
        Some(Ok(false)) => Some(
            Verdict::Refuse(MetadataErrorView::InvalidOperation(busy_target_message(title, target))),
        ),
        Some(Ok(true)) => None,
    }
}

/// What copying the archive directory into the target has come to.
pub open spec fn copy_tree_verdict(archive: Seq<char>, target: Seq<char>, log: DeployLog) -> Verdict {
    match log.transfer {
        None => Verdict::Ask(FsRequestView::CopyTree { from: archive, to: target }),
        Some(Err(e)) => Verdict::Refuse(MetadataErrorView::FileError(e@)),
        Some(Ok(())) => Verdict::Settle { path: target, kind: DeployType::Directory },
    }
}

/// What unpacking the archive file into the target has come to.
pub open spec fn unpack_verdict(
    format: ArchiveFormat,
    archive: Seq<char>,
    password: Option<Seq<char>>,
    target: Seq<char>,
    log: DeployLog,
) -> Verdict {
    match format {
        ArchiveFormat::SevenZip => match unpack_step(archive, target, password, log.unpack) {
            Step::Need(r) => Verdict::Ask(r),
            Step::Done(Err(e)) => Verdict::Refuse(MetadataErrorView::DecompressionError(e)),
            Step::Done(Ok(())) => Verdict::Settle { path: target, kind: DeployType::Directory },
        },
        _ => match log.transfer {
            None => Verdict::Ask(
                FsRequestView::Extract { format, archive, dest: target, password },
            ),
            Some(Err(e)) => Verdict::Refuse(
                if format == ArchiveFormat::Rar {
                    MetadataErrorView::DecompressionRARError(e@)
                } else {
                    MetadataErrorView::DecompressionError(e@)
                },
            ),
            Some(Ok(())) => Verdict::Settle { path: target, kind: DeployType::Directory },
        },
    }
}

/// What copying the archive file into the target has come to.
pub open spec fn copy_file_verdict(archive: Seq<char>, target: Seq<char>, log: DeployLog) -> Verdict {
    match log.copied {
        None => Verdict::Ask(FsRequestView::CopyInto { file: archive, dir: target }),
        Some(Err(e)) => Verdict::Refuse(MetadataErrorView::FileError(e@)),
        Some(Ok(copy)) => Verdict::Settle { path: copy@, kind: DeployType::CopyFile },
    }
}

/// What the transfer has come to, once archive and target are known to
/// be fit. A directory is copied, and an archive of a known format is
/// unpacked, into a target that must be empty. Any other file is copied
/// as it is, whatever the target holds.
pub open spec fn transfer_verdict(
    title: Seq<char>,
    archive: Seq<char>,
    password: Option<Seq<char>>,
    target: Seq<char>,
    facts: PathFacts,
    log: DeployLog,
) -> Verdict {
    match facts.kind {
        PathKind::Directory => match emptiness_verdict(title, target, log) {
            Some(v) => v,
            None => copy_tree_verdict(archive, target, log),
        },
        PathKind::File => match format_of(opt_text(facts.extension)) {
            Some(format) => match emptiness_verdict(title, target, log) {
                Some(v) => v,
                None => unpack_verdict(format, archive, password, target, log),
            },
            None => copy_file_verdict(archive, target, log),
        },
        _ => Verdict::Refuse(MetadataErrorView::InvalidMetadata(odd_archive_message(archive))),
    }
}

/// What stands in the way of a transfer on the side of the target: the
/// question what it is, that it is a file, the request to create it
/// where it is missing, or the failure to do so.
pub open spec fn target_verdict(title: Seq<char>, target: Seq<char>, log: DeployLog) -> Option<
    Verdict,
> {
    match log.target {
        None => Some(Verdict::Ask(FsRequestView::Inspect(target))),
        Some(facts) => match facts.kind {
            PathKind::File => Some(
                Verdict::Refuse(
                    MetadataErrorView::InvalidOperation(file_target_message(title, target)),
                ),
            ),
            PathKind::Missing => match log.created {
                None => Some(Verdict::Ask(FsRequestView::CreateDirAll(target))),
                Some(Err(e)) => Some(Verdict::Refuse(MetadataErrorView::FileError(e@))),
                Some(Ok(())) => None,
            },
            _ => None,
        },
    }
}

/// What deploying the archive of a record to `target` has come to, after
/// the answers in `log`.
pub open spec fn deploy_verdict(
    title: Seq<char>,
    archive_path: Option<Seq<char>>,
    password: Option<Seq<char>>,
    target: Seq<char>,
    log: DeployLog,
) -> Verdict {
    match archive_path {
        None => Verdict::Refuse(MetadataErrorView::InvalidOperation(no_archive_message(title))),
        Some(archive) => match log.archive {
            None => Verdict::Ask(FsRequestView::Inspect(archive)),
            Some(facts) => if facts.kind == PathKind::Missing {
                Verdict::Refuse(MetadataErrorView::InvalidMetadata(lost_archive_message(title)))
            } else {
                match target_verdict(title, target, log) {
                    Some(v) => v,
                    None => transfer_verdict(title, archive, password, target, facts, log),
                }
            },
        },
    }
}

fn check_target_empty(target: &str, title: &str, log: &DeployLog) -> (r: Option<Decision>)
    ensures
        match emptiness_verdict(title@, target@, *log) {
            Some(v) => r matches Some(d) && d@ == v,
            None => r is None,
        },
{
    match &log.empty {
        None => Some(Decision::Ask(FsRequest::IsEmpty(String::from_str(target)))),
        Some(Err(e)) => Some(Decision::Refuse(MetadataError::FileError(e.clone()))),
        Some(Ok(false)) => Some(
            Decision::Refuse(
                MetadataError::InvalidOperation(
                    join3("Trying to deploy folder '", title, "' to a non-empty directory: ").concat(
                        target,
                    ),
                ),
            ),
        ),
        Some(Ok(true)) => None,
    }
}

fn validate_deploy_path(target: &str, title: &str, log: &DeployLog) -> (r: Option<Decision>)
    ensures
        match target_verdict(title@, target@, *log) {
            Some(v) => r matches Some(d) && d@ == v,
            None => r is None,
        },
{
    match &log.target {
        None => Some(Decision::Ask(FsRequest::Inspect(String::from_str(target)))),
        Some(facts) => match facts.kind {
            PathKind::File => Some(
                Decision::Refuse(
                    MetadataError::InvalidOperation(
                        join3("Trying to deploy '", title, "' to an existing file path: ").concat(
                            target,
                        ),
                    ),
                ),
            ),
            PathKind::Missing => match &log.created {
                None => Some(Decision::Ask(FsRequest::CreateDirAll(String::from_str(target)))),
                Some(Err(e)) => Some(Decision::Refuse(MetadataError::FileError(e.clone()))),
                Some(Ok(())) => None,
            },
            _ => None,
        },
    }
}

fn unpack(
    format: ArchiveFormat,
    archive: &str,
    password: &Option<String>,
    target: &str,
    log: &DeployLog,
) -> (r: Decision)
    ensures
        r@ == unpack_verdict(format, archive@, opt_text(*password), target@, *log),
{
    match format {
        ArchiveFormat::SevenZip => match decompress_7z_to_dir(archive, target, password, &log.unpack).requests() {
            Step::Need(r) => Decision::Ask(r),
            Step::Done(Err(e)) => Decision::Refuse(MetadataError::DecompressionError(e)),
            Step::Done(Ok(())) => Decision::Settle {
                path: String::from_str(target),
                kind: DeployType::Directory,
            },
        },
        _ => match &log.transfer {
            None => Decision::Ask(
                FsRequest::Extract {
                    format,
                    archive: String::from_str(archive),
                    dest: String::from_str(target),
                    password: copy_opt(password),
                },
            ),
            Some(Err(e)) => Decision::Refuse(
                if format == ArchiveFormat::Rar {
                    MetadataError::DecompressionRARError(e.clone())
                } else {
                    MetadataError::DecompressionError(e.clone())
                },
            ),
            Some(Ok(())) => Decision::Settle {
                path: String::from_str(target),
                kind: DeployType::Directory,
            },
        },
    }
}

fn transfer(
    title: &str,
    archive: &str,
    password: &Option<String>,
    target: &str,
    facts: &PathFacts,
    log: &DeployLog,
) -> (r: Decision)
    ensures
        r@ == transfer_verdict(title@, archive@, opt_text(*password), target@, *facts, *log),
{
    match facts.kind {
        PathKind::Directory => match check_target_empty(target, title, log) {
            Some(d) => d,
            None => match &log.transfer {
                None => Decision::Ask(
                    FsRequest::CopyTree {
                        from: String::from_str(archive),
                        to: String::from_str(target),
                    },
                ),
                Some(Err(e)) => Decision::Refuse(MetadataError::FileError(e.clone())),
                Some(Ok(())) => Decision::Settle {
                    path: String::from_str(target),
                    kind: DeployType::Directory,
                },
            },
        },
        PathKind::File => match archive_format(&facts.extension) {
            Some(format) => match check_target_empty(target, title, log) {
                Some(d) => d,
                None => unpack(format, archive, password, target, log),
            },
            None => match &log.copied {
                None => Decision::Ask(
                    FsRequest::CopyInto {
                        file: String::from_str(archive),
                        dir: String::from_str(target),
                    },
                ),
                Some(Err(e)) => Decision::Refuse(MetadataError::FileError(e.clone())),
                Some(Ok(copy)) => Decision::Settle { path: copy.clone(), kind: DeployType::CopyFile },
            },
        },
        _ => Decision::Refuse(
            MetadataError::InvalidMetadata(
                join3("Unexpected path type for archive ", archive, ": ").concat(archive),
            ),
        ),
    }
}

/// Decides what deploying an archive to `target` has come to, after the
/// answers in `log`.
pub fn decide_deploy(
    title: &str,
    archive_path: &Option<String>,
    password: &Option<String>,
    target: &str,
    log: &DeployLog,
) -> (r: Decision)
    ensures
        r@ == deploy_verdict(title@, opt_text(*archive_path), opt_text(*password), target@, *log),
{
    match archive_path {
        None => Decision::Refuse(
            MetadataError::InvalidOperation(
                join3("Trying to deploy '", title, "' without an archive path"),
            ),
        ),
        Some(archive) => match &log.archive {
            None => Decision::Ask(FsRequest::Inspect(archive.clone())),
            Some(facts) => if facts.kind == PathKind::Missing {
                Decision::Refuse(
                    MetadataError::InvalidMetadata(
                        join3("Trying to deploy '", title, "' without a valid archive path"),
                    ),
                )
            } else {
                match validate_deploy_path(target, title, log) {
                    Some(d) => d,
                    None => transfer(title, archive.as_str(), password, target, facts, log),
                }
            },
        },
    }
}


/// What measuring the archive of a record has come to.
pub open spec fn size_verdict(title: Seq<char>, archive_path: Option<Seq<char>>, probe: ArchiveProbe) -> Result<
    Option<u64>,
    MetadataErrorView,
> {
    match archive_path {
        None => Ok(None),
        Some(archive) => match probe {
            ArchiveProbe::Missing => Err(
                MetadataErrorView::InvalidMetadata(unmeasurable_message(title)),
            ),
            ArchiveProbe::File(len) => Ok(Some(len)),
            ArchiveProbe::Unreadable(e) => Err(MetadataErrorView::FileError(e@)),
            ArchiveProbe::Directory(total) => Ok(Some(total)),
            ArchiveProbe::Other => Err(
                MetadataErrorView::InvalidMetadata(odd_archive_message(archive)),
            ),
        },
    }
}

/// Decides what measuring an archive has come to: the size to record, if
/// any, or the failure.
pub fn decide_size(title: &str, archive_path: &Option<String>, probe: &ArchiveProbe) -> (r: Result<
    Option<u64>,
    MetadataError,
>)
    ensures
        match size_verdict(title@, opt_text(*archive_path), *probe) {
            Ok(size) => r == Ok::<Option<u64>, MetadataError>(size),
            Err(e) => r matches Err(x) && x@ == e,
        },
{
    match archive_path {
        None => Ok(None),
        Some(archive) => match probe {
            ArchiveProbe::Missing => Err(
                MetadataError::InvalidMetadata(
                    join3("Trying to calculate size of '", title, "' without a valid archive path"),
                ),
            ),
            ArchiveProbe::File(len) => Ok(Some(*len)),
            ArchiveProbe::Unreadable(e) => Err(MetadataError::FileError(e.clone())),
            ArchiveProbe::Directory(total) => Ok(Some(*total)),
            ArchiveProbe::Other => Err(
                MetadataError::InvalidMetadata(
                    join3("Unexpected path type for archive ", archive.as_str(), ": ").concat(
                        archive.as_str(),
                    ),
                ),
            ),
        },
    }
}

/// What deploying off has come to.
pub enum OffVerdict {
    /// It needs the answer to a request.
    Ask(FsRequestView),
    /// The record is not deployed where it says: the deployment is
    /// forgotten, and the operation fails.
    Normalise,
    /// It failed, and the record stays as it was.
    Refuse(MetadataErrorView),
    /// It succeeded: the deployment is forgotten.
    Clear,
}

/// What deploying off has come to, as it is computed.
pub enum OffDecision {
    Ask(FsRequest),
    Normalise,
    Refuse(MetadataError),
    Clear,
}

impl View for OffDecision {
    type V = OffVerdict;

    open spec fn view(&self) -> OffVerdict {
        match *self {
            OffDecision::Ask(r) => OffVerdict::Ask(r@),
            OffDecision::Normalise => OffVerdict::Normalise,
            OffDecision::Refuse(e) => OffVerdict::Refuse(e@),
            OffDecision::Clear => OffVerdict::Clear,
        }
    }
}

impl OffVerdict {
    /// The step that the caller sees, for a record of this title.
    pub open spec fn step(self, title: Seq<char>) -> RecordStep {
        match self {
            OffVerdict::Ask(r) => Step::Need(r),
            OffVerdict::Normalise => Step::Done(
                Err(MetadataErrorView::InvalidOperation(not_deployed_message(title))),
            ),
            OffVerdict::Refuse(e) => Step::Done(Err(e)),
            OffVerdict::Clear => Step::Done(Ok(())),
        }
    }
}

/// How each entry of a deployed directory is removed: a directory with
/// all that is in it, anything else as a file.
pub open spec fn clearing(entries: Seq<DirEntry>) -> Seq<RemovalView> {
    entries.map_values(|e: DirEntry| RemovalView { path: e.path@, recursive: e.is_dir })
}

/// What removing has come to.
pub open spec fn removal_verdict(items: Seq<RemovalView>, log: UndeployLog) -> OffVerdict {
    match log.removed {
        None => OffVerdict::Ask(FsRequestView::Remove(items)),
        Some(Err(e)) => OffVerdict::Refuse(MetadataErrorView::FileError(e@)),
        Some(Ok(())) => OffVerdict::Clear,
    }
}

/// What deploying off a record has come to, after the answers in `log`.
/// A deployed directory is emptied and kept; a deployed file is deleted.
pub open spec fn undeploy_verdict(
    deployed_path: Option<Seq<char>>,
    deployed_type: Option<DeployType>,
    log: UndeployLog,
) -> OffVerdict {
    match (deployed_path, deployed_type) {
        (Some(path), Some(kind)) => match log.target {
            None => OffVerdict::Ask(FsRequestView::Inspect(path)),
            Some(facts) => match kind {
                DeployType::Directory => if facts.kind != PathKind::Directory {
                    OffVerdict::Normalise
                } else {
                    match log.entries {
                        None => OffVerdict::Ask(FsRequestView::ListDir(path)),
                        Some(Err(e)) => OffVerdict::Refuse(MetadataErrorView::FileError(e@)),
                        Some(Ok(entries)) => removal_verdict(clearing(entries@), log),
                    }
                },
                DeployType::CopyFile => if facts.kind != PathKind::File {
                    OffVerdict::Normalise
                } else {
                    removal_verdict(seq![RemovalView { path, recursive: false }], log)
                },
            },
        },
        _ => OffVerdict::Normalise,
    }
}

fn clear_plan(entries: &Vec<DirEntry>) -> (r: Vec<Removal>)
    ensures
        crate::effect::removals(r@) == clearing(entries@),
{
    let mut out: Vec<Removal> = Vec::new();
    let mut i: usize = 0;
    while i < entries.len()
        invariant
            i <= entries.len(),
            out.len() == i,
            forall|j: int|
                0 <= j < i ==> (#[trigger] out@[j])@ == (RemovalView {
                    path: entries@[j].path@,
                    recursive: entries@[j].is_dir,
                }),
        decreases entries.len() - i,
    {
        out.push(Removal { path: entries[i].path.clone(), recursive: entries[i].is_dir });
        i += 1;
    }
    assert(crate::effect::removals(out@) =~= clearing(entries@));
    out
}

fn remove(items: Vec<Removal>, log: &UndeployLog) -> (r: OffDecision)
    ensures
        r@ == removal_verdict(crate::effect::removals(items@), *log),
{
    match &log.removed {
        None => OffDecision::Ask(FsRequest::Remove(items)),
        Some(Err(e)) => OffDecision::Refuse(MetadataError::FileError(e.clone())),
        Some(Ok(())) => OffDecision::Clear,
    }
}

/// Decides what deploying off has come to, after the answers in `log`.
pub fn decide_undeploy(
    deployed_path: &Option<String>,
    deployed_type: &Option<DeployType>,
    log: &UndeployLog,
) -> (r: OffDecision)
    ensures
        r@ == undeploy_verdict(opt_text(*deployed_path), *deployed_type, *log),
{
    match deployed_path {
        None => OffDecision::Normalise,
        Some(path) => match deployed_type {
            None => OffDecision::Normalise,
            Some(kind) => match &log.target {
                None => OffDecision::Ask(FsRequest::Inspect(path.clone())),
                Some(facts) => match kind {
                    DeployType::Directory => if facts.kind != PathKind::Directory {
                        OffDecision::Normalise
                    } else {
                        match &log.entries {
                            None => OffDecision::Ask(FsRequest::ListDir(path.clone())),
                            Some(Err(e)) => OffDecision::Refuse(MetadataError::FileError(e.clone())),
                            Some(Ok(entries)) => remove(clear_plan(entries), log),
                        }
                    },
                    DeployType::CopyFile => if facts.kind != PathKind::File {
                        OffDecision::Normalise
                    } else {
                        let mut items: Vec<Removal> = Vec::new();
                        items.push(Removal { path: path.clone(), recursive: false });
                        assert(crate::effect::removals(items@) =~= seq![
                            RemovalView { path: path@, recursive: false },
                        ]);
                        remove(items, log)
                    },
                },
            },
        },
    }
}

impl MetadataView {
    /// The record after a step of measuring its archive.
    pub open spec fn after_size(self, probe: ArchiveProbe) -> MetadataView {
        match size_verdict(self.title, self.archive_path, probe) {
            Ok(Some(size)) => self.sized(size),
            _ => self,
        }
    }

    /// What deploying the record to `target` has come to.
    pub open spec fn deploy_verdict(self, target: Seq<char>, log: DeployLog) -> Verdict {
        deploy_verdict(self.title, self.archive_path, self.archive_password, target, log)
    }

    /// The record after a step of deploying it to `target` at `now`.
    pub open spec fn after_deploy(self, target: Seq<char>, log: DeployLog, now: Timestamp) -> MetadataView {
        match self.deploy_verdict(target, log) {
            Verdict::Settle { path, kind } => self.deployed(path, kind, now),
            _ => self,
        }
    }

    /// What deploying the record off has come to.
    pub open spec fn undeploy_verdict(self, log: UndeployLog) -> OffVerdict {
        undeploy_verdict(self.deployed_path, self.deployed_type, log)
    }

    /// The record after a step of deploying it off at `now`.
    pub open spec fn after_deploy_off(self, log: UndeployLog, now: Timestamp) -> MetadataView {
        match self.undeploy_verdict(log) {
            OffVerdict::Normalise | OffVerdict::Clear => self.undeployed(now),
            _ => self,
        }
    }
}

impl Metadata {
    /// The request whose answer `calculate_size` needs: to measure the
    /// archive, where the record names one.
    pub fn size_request(&self) -> (r: Option<FsRequest>)
        ensures
            match self@.archive_path {
                Some(archive) => r matches Some(q) && q@ == FsRequestView::Measure(archive),
                None => r is None,
            },
    {
        match &self.archive_path {
            Some(archive) => Some(FsRequest::Measure(archive.clone())),
            None => None,
        }
    }

    /// Records the size of the archive as `probe` found it: the length
    /// of a file, or the size of the files under a directory. A record
    /// that names no archive stays as it is, and that is no failure. It
    /// is a failure, which leaves the record as it is, that nothing lies
    /// at the archive path, that the length of the file could not be
    /// read, or that what lies there is neither file nor directory.
    pub fn calculate_size(&mut self, probe: &ArchiveProbe) -> (r: Result<(), MetadataError>)
        ensures
            match size_verdict(old(self)@.title, old(self)@.archive_path, *probe) {
                Ok(_) => r is Ok,
                Err(e) => r matches Err(x) && x@ == e,
            },
            final(self)@ == old(self)@.after_size(*probe),
    {
        match decide_size(self.title.as_str(), &self.archive_path, probe) {
            Ok(Some(size)) => {
                self.size_bytes = Some(size);
                Ok(())
            },
            Ok(None) => Ok(()),
            Err(e) => Err(e),
        }
    }

    /// Deploys the archive of the record to `path`, as far as the
    /// answers in `log` allow: the result is the next request, or the
    /// end of the deployment. The record changes only when the
    /// deployment has succeeded: it is then deployed, at `path` as a
    /// directory or at the path of the copied file, and updated at `now`.
    pub fn deploy(&mut self, path: &str, log: &DeployLog, now: Timestamp) -> (r: Step<
        Ask<FsRequest, DeploySlot>,
        Result<(), MetadataError>,
    >)
        ensures
            record_step(r.bare()) == old(self)@.deploy_verdict(path@, *log).step(),
            r.slot() == deploy_slot(old(self)@.archive_path, *log),
            final(self)@ == old(self)@.after_deploy(path@, *log, now),
    {
        proof {
            deploy_asks_for_what_is_missing(
                self@.title,
                self@.archive_path,
                self@.archive_password,
                path@,
                *log,
            );
        }
        match decide_deploy(self.title.as_str(), &self.archive_path, &self.archive_password, path, log) {
            Decision::Ask(request) => Step::Need(
                Ask { request, slot: pending_deploy(&self.archive_path, log).unwrap() },
            ),
            Decision::Refuse(e) => Step::Done(Err(e)),
            Decision::Settle { path: deployed, kind } => {
                self.update_deployed_path(deployed, kind, now);
                Step::Done(Ok(()))
            },
        }
    }

    /// Deploys the record off, as far as the answers in `log` allow: the
    /// result is the next request, or the end of the operation. When the
    /// record is not deployed where it says, the deployment is forgotten
    /// and the operation fails as invalid; when the removal has
    /// succeeded, the deployment is forgotten; either way the record is
    /// updated at `now`. In every other case it stays as it is.
    pub fn deploy_off(&mut self, log: &UndeployLog, now: Timestamp) -> (r: Step<
        Ask<FsRequest, UndeploySlot>,
        Result<(), MetadataError>,
    >)
        ensures
            record_step(r.bare()) == old(self)@.undeploy_verdict(*log).step(old(self)@.title),
            r.slot() == undeploy_slot(old(self)@.deployed_path, old(self)@.deployed_type, *log),
            final(self)@ == old(self)@.after_deploy_off(*log, now),
    {
        proof {
            deploy_off_asks_for_what_is_missing(self@.deployed_path, self@.deployed_type, *log);
        }
        match decide_undeploy(&self.deployed_path, &self.deployed_type, log) {
            OffDecision::Ask(request) => Step::Need(
                Ask {
                    request,
                    slot: pending_undeploy(&self.deployed_path, &self.deployed_type, log).unwrap(),
                },
            ),
            OffDecision::Normalise => {
                self.remove_deploy_info(now);
                Step::Done(
                    Err(
                        MetadataError::InvalidOperation(
                            join3(
                                "Trying to deploy off '",
                                self.title.as_str(),
                                "' without a valid deployed path",
                            ),
                        ),
                    ),
                )
            },
            OffDecision::Refuse(e) => Step::Done(Err(e)),
            OffDecision::Clear => {
                self.remove_deploy_info(now);
                Step::Done(Ok(()))
            },
        }
    }
}


/// The level at which the archive of a new record is packed.
pub const ARCHIVE_LEVEL: u32 = 9;

/// What packing a directory into the archive of a new record has come
/// to.
pub enum CreateVerdict {
    /// It needs the answer to a request.
    Ask(FsRequestView),
    /// It failed.
    Refuse(MetadataErrorView),
    /// The archive is packed and was measured with this result.
    Build(ArchiveProbe),
}

/// What packing the directory `from` into the archive `target` of a new
/// record has come to, after the answers in `log`. The directory must be
/// one; the archive is packed at the highest level and then measured.
pub open spec fn create_verdict(
    from: Seq<char>,
    target: Seq<char>,
    password: Option<Seq<char>>,
    log: CreateLog,
) -> CreateVerdict {
    match log.origin {
        None => CreateVerdict::Ask(FsRequestView::Inspect(from)),
        Some(facts) => if facts.kind != PathKind::Directory {
            CreateVerdict::Refuse(MetadataErrorView::InvalidOrigin(from))
        } else {
            match pack_step(from, target, password, Some(ARCHIVE_LEVEL), log.pack) {
                Step::Need(r) => CreateVerdict::Ask(r),
                Step::Done(Err(e)) => CreateVerdict::Refuse(MetadataErrorView::CompressionError(e)),
                Step::Done(Ok(())) => match log.size {
                    None => CreateVerdict::Ask(FsRequestView::Measure(target)),
                    Some(probe) => CreateVerdict::Build(probe),
                },
            }
        },
    }
}

/// The record of a new entry whose archive was packed at `target` and
/// measured as `probe`: a new record for that archive, with the size
/// where the measurement gave one, and with the password.
pub open spec fn created_record(
    id: Seq<char>,
    now: Timestamp,
    title: Seq<char>,
    platform: PlatformView,
    platform_id: Option<Seq<char>>,
    target: Seq<char>,
    password: Option<Seq<char>>,
    probe: ArchiveProbe,
) -> MetadataView {
    MetadataView {
        archive_password: password,
        ..new_record(id, now, title, platform, platform_id, target).after_size(probe)
    }
}

impl Metadata {
    /// Packs the directory `from_path` into a new archive at
    /// `target_path`, with the password where one is given, and makes
    /// the record of a new entry for it, as far as the answers in `log`
    /// allow: the result is the next request, or the end of the
    /// operation. The record has the identifier `id` and is created at
    /// `now`.
    pub fn new_on_create_archive(
        id: &str,
        now: Timestamp,
        title: &str,
        platform: &Platform,
        platform_id: &Option<String>,
        from_path: &str,
        target_path: &str,
        password: &Option<String>,
        log: &CreateLog,
    ) -> (r: Step<Ask<FsRequest, CreateSlot>, Result<Metadata, MetadataError>>)
        ensures
            r.slot() == create_slot(*log),
            match create_verdict(from_path@, target_path@, opt_text(*password), *log) {
                CreateVerdict::Ask(q) => r matches Step::Need(x) && x.request@ == q,
                CreateVerdict::Refuse(e) => r matches Step::Done(Err(x)) && x@ == e,
                CreateVerdict::Build(probe) => r matches Step::Done(Ok(m)) && m@ == created_record(
                    id@,
                    now,
                    title@,
                    platform@,
                    opt_text(*platform_id),
                    target_path@,
                    opt_text(*password),
                    probe,
                ),
            },
    {
        match &log.origin {
            None => Step::Need(
                Ask {
                    request: FsRequest::Inspect(String::from_str(from_path)),
                    slot: CreateSlot::Origin,
                },
            ),
            Some(facts) => if facts.kind != PathKind::Directory {
                Step::Done(Err(MetadataError::InvalidOrigin(String::from_str(from_path))))
            } else {
                match compress_dir_to_7z(from_path, target_path, password, Some(ARCHIVE_LEVEL), &log.pack) {
                    Step::Need(ask) => Step::Need(
                        Ask { request: ask.request, slot: CreateSlot::Pack(ask.slot) },
                    ),
                    Step::Done(Err(e)) => Step::Done(Err(MetadataError::CompressionError(e))),
                    Step::Done(Ok(())) => match &log.size {
                        None => Step::Need(
                            Ask {
                                request: FsRequest::Measure(String::from_str(target_path)),
                                slot: CreateSlot::Size,
                            },
                        ),
                        Some(probe) => {
                            let mut metadata = Metadata::with_identity(
                                String::from_str(id),
                                now,
                                String::from_str(title),
                                platform.duplicate(),
                                copy_opt(platform_id),
                                String::from_str(target_path),
                            );
                            let _ = metadata.calculate_size(probe);
                            match password {
                                Some(pwd) => {
                                    metadata.archive_password = Some(pwd.clone());
                                },
                                None => {},
                            }
                            Step::Done(Ok(metadata))
                        },
                    },
                }
            },
        }
    }
}

/// Deploying into a directory that holds something fails as an invalid
/// operation and leaves the record as it was, where the archive is a
/// directory or a file of a format that is unpacked.
pub proof fn deploy_into_busy_target_fails(
    m: MetadataView,
    target: Seq<char>,
    log: DeployLog,
    now: Timestamp,
)
    requires
        m.archive_path is Some,
        log.archive matches Some(facts) && (facts.kind == PathKind::Directory || (facts.kind
            == PathKind::File && format_of(opt_text(facts.extension)) is Some)),
        log.target matches Some(facts) && facts.kind == PathKind::Directory,
        log.empty matches Some(Ok(e)) && !e,
    ensures
        m.deploy_verdict(target, log) == Verdict::Refuse(
            MetadataErrorView::InvalidOperation(busy_target_message(m.title, target)),
        ),
        m.after_deploy(target, log, now) == m,
{
}

/// A deployment that does not succeed leaves the record as it was, and
/// one that succeeds leaves it deployed and updated at `now`, with
/// nothing else changed.
pub proof fn deploy_changes_record_on_success_only(
    m: MetadataView,
    target: Seq<char>,
    log: DeployLog,
    now: Timestamp,
)
    ensures
        !(m.deploy_verdict(target, log) is Settle) ==> m.after_deploy(target, log, now) == m,
        m.deploy_verdict(target, log) is Settle ==> {
            let after = m.after_deploy(target, log, now);
            &&& after.is_deployed()
            &&& after.date_updated == now
            &&& after == MetadataView {
                deployed_path: after.deployed_path,
                deployed_type: after.deployed_type,
                date_updated: now,
                ..m
            }
        },
{
}

/// Deploying a record and then deploying it off, both with success,
/// leaves it not deployed and otherwise as it was before, but for the
/// time of its update.
pub proof fn deploy_then_deploy_off_restores(
    m: MetadataView,
    target: Seq<char>,
    deploy_log: DeployLog,
    deployed_at: Timestamp,
    off_log: UndeployLog,
    off_at: Timestamp,
)
    requires
        m.deploy_verdict(target, deploy_log) is Settle,
        m.after_deploy(target, deploy_log, deployed_at).undeploy_verdict(off_log) is Clear,
    ensures
        m.after_deploy(target, deploy_log, deployed_at).is_deployed(),
        m.after_deploy(target, deploy_log, deployed_at).after_deploy_off(off_log, off_at)
            == m.undeployed(off_at),
        m.undeployed(off_at).is_not_deployed(),
{
}

/// Deploying off a record whose deployed path and kind do not come
/// together forgets both and fails as an invalid operation, whatever the
/// answers.
pub proof fn deploy_off_normalises(m: MetadataView, log: UndeployLog, now: Timestamp)
    requires
        m.deployed_path is None || m.deployed_type is None,
    ensures
        m.undeploy_verdict(log).step(m.title) == Step::<
            FsRequestView,
            Result<(), MetadataErrorView>,
        >::Done(Err(MetadataErrorView::InvalidOperation(not_deployed_message(m.title)))),
        m.after_deploy_off(log, now).is_not_deployed(),
{
}

/// Every step of the life cycle keeps a record well formed, where it is
/// not made at an instant before the record was created.
pub proof fn life_cycle_keeps_well_formed(
    m: MetadataView,
    target: Seq<char>,
    deploy_log: DeployLog,
    off_log: UndeployLog,
    probe: ArchiveProbe,
    now: Timestamp,
)
    requires
        m.well_formed(),
        now.not_before(m.date_created),
    ensures
        m.updated(now).well_formed(),
        m.after_size(probe).well_formed(),
        m.after_deploy(target, deploy_log, now).well_formed(),
        m.after_deploy_off(off_log, now).well_formed(),
{
}

/// Deploying off a deployed directory asks to remove each of its listed
/// entries, directories with all that is in them, and not the directory
/// itself.
pub proof fn deploy_off_removes_entries_only(m: MetadataView, log: UndeployLog, entries: Seq<DirEntry>)
    requires
        m.deployed_path is Some,
        m.deployed_type == Some(DeployType::Directory),
        log.target matches Some(facts) && facts.kind == PathKind::Directory,
        log.entries matches Some(Ok(listed)) && listed@ == entries,
        log.removed is None,
    ensures
        m.undeploy_verdict(log) matches OffVerdict::Ask(FsRequestView::Remove(items))
            && items.len() == entries.len() && forall|i: int|
            0 <= i < entries.len() ==> #[trigger] items[i] == (RemovalView {
                path: entries[i].path@,
                recursive: entries[i].is_dir,
            }),
{
}


/// The places of a `DeployLog`.
#[derive(Clone, Copy, Debug, PartialEq, Eq, Structural)]
pub enum DeploySlot {
    Archive,
    Target,
    Created,
    Empty,
    Transfer,
    /// A place of the log of unpacking a 7z archive.
    Unpack(UnpackSlot),
    Copied,
}

/// The places of an `UndeployLog`.
#[derive(Clone, Copy, Debug, PartialEq, Eq, Structural)]
pub enum UndeploySlot {
    Target,
    Entries,
    Removed,
}

/// The places of a `CreateLog`.
#[derive(Clone, Copy, Debug, PartialEq, Eq, Structural)]
pub enum CreateSlot {
    Origin,
    /// A place of the log of packing.
    Pack(PackSlot),
    Size,
}

impl DeploySlot {
    /// The kind of answer that the place takes.
    pub open spec fn kind(self) -> ReplyKind {
        match self {
            DeploySlot::Archive => ReplyKind::Facts,
            DeploySlot::Target => ReplyKind::Facts,
            DeploySlot::Created => ReplyKind::Outcome,
            DeploySlot::Empty => ReplyKind::Empty,
            DeploySlot::Transfer => ReplyKind::Outcome,
            DeploySlot::Unpack(slot) => slot.kind(),
            DeploySlot::Copied => ReplyKind::Copied,
        }
    }
}

impl UndeploySlot {
    /// The kind of answer that the place takes.
    pub open spec fn kind(self) -> ReplyKind {
        match self {
            UndeploySlot::Target => ReplyKind::Facts,
            UndeploySlot::Entries => ReplyKind::Entries,
            UndeploySlot::Removed => ReplyKind::Outcome,
        }
    }
}

impl CreateSlot {
    /// The kind of answer that the place takes.
    pub open spec fn kind(self) -> ReplyKind {
        match self {
            CreateSlot::Origin => ReplyKind::Facts,
            CreateSlot::Pack(slot) => slot.kind(),
            CreateSlot::Size => ReplyKind::Probe,
        }
    }
}

impl DeployLog {
    /// Whether the place holds no answer.
    pub open spec fn missing(self, slot: DeploySlot) -> bool {
        match slot {
            DeploySlot::Archive => self.archive is None,
            DeploySlot::Target => self.target is None,
            DeploySlot::Created => self.created is None,
            DeploySlot::Empty => self.empty is None,
            DeploySlot::Transfer => self.transfer is None,
            DeploySlot::Unpack(slot) => self.unpack.missing(slot),
            DeploySlot::Copied => self.copied is None,
        }
    }

    /// The log with the answer in the place, where it is of the kind
    /// that the place takes.
    pub open spec fn filled(self, slot: DeploySlot, reply: FsReply) -> DeployLog {
        match (slot, reply) {
            (DeploySlot::Archive, FsReply::Facts(f)) => DeployLog { archive: Some(f), ..self },
            (DeploySlot::Target, FsReply::Facts(f)) => DeployLog { target: Some(f), ..self },
            (DeploySlot::Created, FsReply::Outcome(r)) => DeployLog { created: Some(r), ..self },
            (DeploySlot::Empty, FsReply::Empty(r)) => DeployLog { empty: Some(r), ..self },
            (DeploySlot::Transfer, FsReply::Outcome(r)) => DeployLog { transfer: Some(r), ..self },
            (DeploySlot::Unpack(inner), other) => DeployLog {
                unpack: self.unpack.filled(inner, other),
                ..self
            },
            (DeploySlot::Copied, FsReply::Copied(r)) => DeployLog { copied: Some(r), ..self },
            _ => self,
        }
    }

    /// Puts the answer in the place. An answer of another kind than
    /// the place takes is not put there, and the result says so.
    pub fn fill(&mut self, slot: DeploySlot, reply: FsReply) -> (r: bool)
        ensures
            r == (reply.kind() == slot.kind()),
            *final(self) == old(self).filled(slot, reply),
    {
        match (slot, reply) {
            (DeploySlot::Archive, FsReply::Facts(f)) => {
                self.archive = Some(f);
                true
            },
            (DeploySlot::Target, FsReply::Facts(f)) => {
                self.target = Some(f);
                true
            },
            (DeploySlot::Created, FsReply::Outcome(r)) => {
                self.created = Some(r);
                true
            },
            (DeploySlot::Empty, FsReply::Empty(r)) => {
                self.empty = Some(r);
                true
            },
            (DeploySlot::Transfer, FsReply::Outcome(r)) => {
                self.transfer = Some(r);
                true
            },
            (DeploySlot::Unpack(inner), other) => self.unpack.fill(inner, other),
            (DeploySlot::Copied, FsReply::Copied(r)) => {
                self.copied = Some(r);
                true
            },
            _ => false,
        }
    }
}

impl UndeployLog {
    /// Whether the place holds no answer.
    pub open spec fn missing(self, slot: UndeploySlot) -> bool {
        match slot {
            UndeploySlot::Target => self.target is None,
            UndeploySlot::Entries => self.entries is None,
            UndeploySlot::Removed => self.removed is None,
        }
    }

    /// The log with the answer in the place, where it is of the kind
    /// that the place takes.
    pub open spec fn filled(self, slot: UndeploySlot, reply: FsReply) -> UndeployLog {
        match (slot, reply) {
            (UndeploySlot::Target, FsReply::Facts(f)) => UndeployLog { target: Some(f), ..self },
            (UndeploySlot::Entries, FsReply::Entries(r)) => UndeployLog { entries: Some(r), ..self },
            (UndeploySlot::Removed, FsReply::Outcome(r)) => UndeployLog { removed: Some(r), ..self },
            _ => self,
        }
    }

    /// Puts the answer in the place. An answer of another kind than
    /// the place takes is not put there, and the result says so.
    pub fn fill(&mut self, slot: UndeploySlot, reply: FsReply) -> (r: bool)
        ensures
            r == (reply.kind() == slot.kind()),
            *final(self) == old(self).filled(slot, reply),
    {
        match (slot, reply) {
            (UndeploySlot::Target, FsReply::Facts(f)) => {
                self.target = Some(f);
                true
            },
            (UndeploySlot::Entries, FsReply::Entries(r)) => {
                self.entries = Some(r);
                true
            },
            (UndeploySlot::Removed, FsReply::Outcome(r)) => {
                self.removed = Some(r);
                true
            },
            _ => false,
        }
    }
}

impl CreateLog {
    /// Whether the place holds no answer.
    pub open spec fn missing(self, slot: CreateSlot) -> bool {
        match slot {
            CreateSlot::Origin => self.origin is None,
            CreateSlot::Pack(slot) => self.pack.missing(slot),
            CreateSlot::Size => self.size is None,
        }
    }

    /// The log with the answer in the place, where it is of the kind
    /// that the place takes.
    pub open spec fn filled(self, slot: CreateSlot, reply: FsReply) -> CreateLog {
        match (slot, reply) {
            (CreateSlot::Origin, FsReply::Facts(f)) => CreateLog { origin: Some(f), ..self },
            (CreateSlot::Pack(inner), other) => CreateLog {
                pack: self.pack.filled(inner, other),
                ..self
            },
            (CreateSlot::Size, FsReply::Probe(p)) => CreateLog { size: Some(p), ..self },
            _ => self,
        }
    }

    /// Puts the answer in the place. An answer of another kind than
    /// the place takes is not put there, and the result says so.
    pub fn fill(&mut self, slot: CreateSlot, reply: FsReply) -> (r: bool)
        ensures
            r == (reply.kind() == slot.kind()),
            *final(self) == old(self).filled(slot, reply),
    {
        match (slot, reply) {
            (CreateSlot::Origin, FsReply::Facts(f)) => {
                self.origin = Some(f);
                true
            },
            (CreateSlot::Pack(inner), other) => self.pack.fill(inner, other),
            (CreateSlot::Size, FsReply::Probe(p)) => {
                self.size = Some(p);
                true
            },
            _ => false,
        }
    }
}

/// The place of the answer that the transfer waits for, if it waits.
pub open spec fn transfer_slot(facts: PathFacts, log: DeployLog) -> Option<DeploySlot> {
    let empty_first = |then: Option<DeploySlot>|
        match log.empty {
            None => Some(DeploySlot::Empty),
            Some(Ok(true)) => then,
            _ => None,
        };
    let transfer = if log.transfer is None {
        Some(DeploySlot::Transfer)
    } else {
        None
    };
    match facts.kind {
        PathKind::Directory => empty_first(transfer),
        PathKind::File => match format_of(opt_text(facts.extension)) {
            Some(ArchiveFormat::SevenZip) => empty_first(
                match unpack_slot(log.unpack) {
                    Some(slot) => Some(DeploySlot::Unpack(slot)),
                    None => None,
                },
            ),
            Some(_) => empty_first(transfer),
            None => if log.copied is None {
                Some(DeploySlot::Copied)
            } else {
                None
            },
        },
        _ => None,
    }
}

/// The place of the answer that deploying waits for, if it waits.
pub open spec fn deploy_slot(archive_path: Option<Seq<char>>, log: DeployLog) -> Option<DeploySlot> {
    match (archive_path, log.archive) {
        (None, _) => None,
        (Some(_), None) => Some(DeploySlot::Archive),
        (Some(_), Some(facts)) => if facts.kind == PathKind::Missing {
            None
        } else {
            match log.target {
                None => Some(DeploySlot::Target),
                Some(target) => match target.kind {
                    PathKind::File => None,
                    PathKind::Missing => match log.created {
                        None => Some(DeploySlot::Created),
                        Some(Err(_)) => None,
                        Some(Ok(())) => transfer_slot(facts, log),
                    },
                    _ => transfer_slot(facts, log),
                },
            }
        },
    }
}

/// The place of the answer that deploying off waits for, if it waits.
pub open spec fn undeploy_slot(
    deployed_path: Option<Seq<char>>,
    deployed_type: Option<DeployType>,
    log: UndeployLog,
) -> Option<UndeploySlot> {
    let removal = if log.removed is None {
        Some(UndeploySlot::Removed)
    } else {
        None
    };
    match (deployed_path, deployed_type, log.target) {
        (Some(_), Some(_), None) => Some(UndeploySlot::Target),
        (Some(_), Some(DeployType::Directory), Some(facts)) => if facts.kind != PathKind::Directory {
            None
        } else {
            match log.entries {
                None => Some(UndeploySlot::Entries),
                Some(Err(_)) => None,
                Some(Ok(_)) => removal,
            }
        },
        (Some(_), Some(DeployType::CopyFile), Some(facts)) => if facts.kind != PathKind::File {
            None
        } else {
            removal
        },
        _ => None,
    }
}

/// The place of the answer that making an archive waits for, if it
/// waits.
pub open spec fn create_slot(log: CreateLog) -> Option<CreateSlot> {
    match log.origin {
        None => Some(CreateSlot::Origin),
        Some(facts) => if facts.kind != PathKind::Directory {
            None
        } else {
            match pack_slot(log.pack) {
                Some(slot) => Some(CreateSlot::Pack(slot)),
                None => if log.pack.outcome matches Some(Ok(_)) && log.size is None {
                    Some(CreateSlot::Size)
                } else {
                    None
                },
            }
        },
    }
}

fn pending_transfer(facts: &PathFacts, log: &DeployLog) -> (r: Option<DeploySlot>)
    ensures
        r == transfer_slot(*facts, *log),
{
    let format = match facts.kind {
        PathKind::Directory => None,
        PathKind::File => match archive_format(&facts.extension) {
            Some(format) => Some(format),
            None => {
                return if log.copied.is_none() {
                    Some(DeploySlot::Copied)
                } else {
                    None
                };
            },
        },
        _ => {
            return None;
        },
    };
    match &log.empty {
        None => {
            return Some(DeploySlot::Empty);
        },
        Some(Ok(true)) => {},
        _ => {
            return None;
        },
    }
    match format {
        Some(ArchiveFormat::SevenZip) => match decompress_slot(&log.unpack) {
            Some(slot) => Some(DeploySlot::Unpack(slot)),
            None => None,
        },
        _ => if log.transfer.is_none() {
            Some(DeploySlot::Transfer)
        } else {
            None
        },
    }
}

/// The place of the answer that deploying waits for, if it waits.
pub fn pending_deploy(archive_path: &Option<String>, log: &DeployLog) -> (r: Option<DeploySlot>)
    ensures
        r == deploy_slot(opt_text(*archive_path), *log),
{
    if archive_path.is_none() {
        return None;
    }
    match &log.archive {
        None => Some(DeploySlot::Archive),
        Some(facts) => if facts.kind == PathKind::Missing {
            None
        } else {
            match &log.target {
                None => Some(DeploySlot::Target),
                Some(target) => match target.kind {
                    PathKind::File => None,
                    PathKind::Missing => match &log.created {
                        None => Some(DeploySlot::Created),
                        Some(Err(_)) => None,
                        Some(Ok(())) => pending_transfer(facts, log),
                    },
                    _ => pending_transfer(facts, log),
                },
            }
        },
    }
}

/// The place of the answer that deploying off waits for, if it waits.
pub fn pending_undeploy(
    deployed_path: &Option<String>,
    deployed_type: &Option<DeployType>,
    log: &UndeployLog,
) -> (r: Option<UndeploySlot>)
    ensures
        r == undeploy_slot(opt_text(*deployed_path), *deployed_type, *log),
{
    if deployed_path.is_none() {
        return None;
    }
    let kind = match deployed_type {
        None => {
            return None;
        },
        Some(kind) => *kind,
    };
    let facts = match &log.target {
        None => {
            return Some(UndeploySlot::Target);
        },
        Some(facts) => facts,
    };
    match kind {
        DeployType::Directory => {
            if facts.kind != PathKind::Directory {
                return None;
            }
            match &log.entries {
                None => {
                    return Some(UndeploySlot::Entries);
                },
                Some(Err(_)) => {
                    return None;
                },
                Some(Ok(_)) => {},
            }
        },
        DeployType::CopyFile => {
            if facts.kind != PathKind::File {
                return None;
            }
        },
    }
    if log.removed.is_none() {
        Some(UndeploySlot::Removed)
    } else {
        None
    }
}

/// The place of the answer that making an archive waits for, if it
/// waits.
pub fn pending_create(log: &CreateLog) -> (r: Option<CreateSlot>)
    ensures
        r == create_slot(*log),
{
    match &log.origin {
        None => Some(CreateSlot::Origin),
        Some(facts) => if facts.kind != PathKind::Directory {
            None
        } else {
            match compress_slot(&log.pack) {
                Some(slot) => Some(CreateSlot::Pack(slot)),
                None => match &log.pack.outcome {
                    Some(Ok(_)) => if log.size.is_none() {
                        Some(CreateSlot::Size)
                    } else {
                        None
                    },
                    _ => None,
                },
            }
        },
    }
}

impl Metadata {
    /// The place of the answer that `deploy` waits for, if it waits.
    pub fn deploy_slot(&self, log: &DeployLog) -> (r: Option<DeploySlot>)
        ensures
            r == deploy_slot(self@.archive_path, *log),
    {
        pending_deploy(&self.archive_path, log)
    }

    /// The place of the answer that `deploy_off` waits for, if it
    /// waits.
    pub fn deploy_off_slot(&self, log: &UndeployLog) -> (r: Option<UndeploySlot>)
        ensures
            r == undeploy_slot(self@.deployed_path, self@.deployed_type, *log),
    {
        pending_undeploy(&self.deployed_path, &self.deployed_type, log)
    }
}

/// Deploying waits for an answer exactly while it has a request; the
/// answer is missing from its place, and is of the kind that the place
/// takes. So no answer is asked for twice.
pub proof fn deploy_asks_for_what_is_missing(
    title: Seq<char>,
    archive_path: Option<Seq<char>>,
    password: Option<Seq<char>>,
    target: Seq<char>,
    log: DeployLog,
)
    ensures
        match deploy_verdict(title, archive_path, password, target, log) {
            Verdict::Ask(q) => deploy_slot(archive_path, log) matches Some(slot) && log.missing(slot)
                && slot.kind() == q.answer_kind(),
            _ => deploy_slot(archive_path, log) is None,
        },
{
    if let Some(archive) = archive_path {
        crate::flate::unpacking_asks_for_what_is_missing(archive, target, password, log.unpack);
    }
}

/// Deploying off waits for an answer exactly while it has a request;
/// the answer is missing from its place, and is of the kind that the
/// place takes.
pub proof fn deploy_off_asks_for_what_is_missing(
    deployed_path: Option<Seq<char>>,
    deployed_type: Option<DeployType>,
    log: UndeployLog,
)
    ensures
        match undeploy_verdict(deployed_path, deployed_type, log) {
            OffVerdict::Ask(q) => undeploy_slot(deployed_path, deployed_type, log) matches Some(slot)
                && log.missing(slot) && slot.kind() == q.answer_kind(),
            _ => undeploy_slot(deployed_path, deployed_type, log) is None,
        },
{
}

/// Making an archive waits for an answer exactly while it has a
/// request; the answer is missing from its place, and is of the kind
/// that the place takes.
pub proof fn create_asks_for_what_is_missing(
    from: Seq<char>,
    target: Seq<char>,
    password: Option<Seq<char>>,
    log: CreateLog,
)
    ensures
        match create_verdict(from, target, password, log) {
            CreateVerdict::Ask(q) => create_slot(log) matches Some(slot) && log.missing(slot)
                && slot.kind() == q.answer_kind(),
            _ => create_slot(log) is None,
        },
{
    crate::flate::packing_asks_for_what_is_missing(
        from,
        target,
        password,
        Some(ARCHIVE_LEVEL),
        log.pack,
    );
}


/// Whether the answers say that the target is fit to deploy into: it is
/// no file, and where it was missing it could be created.
pub open spec fn target_ready(log: DeployLog) -> bool {
    log.target matches Some(facts) && facts.kind != PathKind::File && (facts.kind
        == PathKind::Missing ==> log.created matches Some(Ok(_)))
}

/// Whether the answers say that the archive was transferred: a
/// directory copied, or an archive of a known format unpacked, into a
/// target that was empty; or any other file copied.
pub open spec fn transferred(facts: PathFacts, log: DeployLog) -> bool {
    let into_empty = log.empty matches Some(Ok(empty)) && empty;
    match facts.kind {
        PathKind::Directory => into_empty && log.transfer matches Some(Ok(_)),
        PathKind::File => match format_of(opt_text(facts.extension)) {
            Some(ArchiveFormat::SevenZip) => into_empty && unpacked(log.unpack),
            Some(_) => into_empty && log.transfer matches Some(Ok(_)),
            None => log.copied matches Some(Ok(_)),
        },
        _ => false,
    }
}

/// Whether the answers say that a deployment went through: the record
/// names an archive, the archive is there, the target is fit, and the
/// archive was transferred.
pub open spec fn deployed_well(archive_path: Option<Seq<char>>, log: DeployLog) -> bool {
    match (archive_path, log.archive) {
        (Some(_), Some(facts)) => facts.kind != PathKind::Missing && target_ready(log)
            && transferred(facts, log),
        _ => false,
    }
}

/// A deployment succeeds exactly when the answers say that it went
/// through. The archive then lies deployed as a directory at the
/// target, or as a copied file at the path of the copy.
pub proof fn deploy_succeeds_exactly_when(
    title: Seq<char>,
    archive_path: Option<Seq<char>>,
    password: Option<Seq<char>>,
    target: Seq<char>,
    log: DeployLog,
)
    ensures
        deploy_verdict(title, archive_path, password, target, log) is Settle <==> deployed_well(
            archive_path,
            log,
        ),
        deploy_verdict(title, archive_path, password, target, log) matches Verdict::Settle {
            path,
            kind,
        } ==> match kind {
            DeployType::Directory => path == target,
            DeployType::CopyFile => log.copied matches Some(Ok(copy)) && path == copy@,
        },
{
    if let Some(archive) = archive_path {
        crate::flate::unpacking_succeeds_exactly_when(archive, target, password, log.unpack);
    }
}

/// Whether the answers say that what lies at the deployed path is what
/// was deployed: a directory for a deployed directory, a file for a
/// copied file.
pub open spec fn still_deployed(
    deployed_path: Option<Seq<char>>,
    deployed_type: Option<DeployType>,
    log: UndeployLog,
) -> bool {
    match (deployed_path, deployed_type, log.target) {
        (Some(_), Some(DeployType::Directory), Some(facts)) => facts.kind == PathKind::Directory,
        (Some(_), Some(DeployType::CopyFile), Some(facts)) => facts.kind == PathKind::File,
        _ => false,
    }
}

/// Whether the answers say that what lies at the deployed path is not
/// what was deployed, or the record is not deployed at all.
pub open spec fn not_deployed_there(
    deployed_path: Option<Seq<char>>,
    deployed_type: Option<DeployType>,
    log: UndeployLog,
) -> bool {
    match (deployed_path, deployed_type, log.target) {
        (Some(_), Some(_), None) => false,
        _ => !still_deployed(deployed_path, deployed_type, log),
    }
}

/// Whether the answers say that what was deployed was removed: the
/// listed entries of a directory, or the copied file.
pub open spec fn removed_well(deployed_type: Option<DeployType>, log: UndeployLog) -> bool {
    &&& log.removed matches Some(Ok(_))
    &&& deployed_type == Some(DeployType::Directory) ==> log.entries matches Some(Ok(_))
}

/// Deploying off succeeds exactly when what lies at the deployed path
/// is what was deployed, and it was removed. It normalises the record,
/// and fails, exactly when the record is not deployed there.
pub proof fn deploy_off_succeeds_exactly_when(
    deployed_path: Option<Seq<char>>,
    deployed_type: Option<DeployType>,
    log: UndeployLog,
)
    ensures
        undeploy_verdict(deployed_path, deployed_type, log) is Clear <==> still_deployed(
            deployed_path,
            deployed_type,
            log,
        ) && removed_well(deployed_type, log),
        undeploy_verdict(deployed_path, deployed_type, log) is Normalise <==> not_deployed_there(
            deployed_path,
            deployed_type,
            log,
        ),
{
}

} // verus!
