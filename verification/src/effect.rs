//! What the catalogue asks of the world around it, and what it is told.
//!
//! The catalogue touches no file itself. An operation that needs the
//! file system returns the request it has, with the place of its log
//! that the answer goes to. The caller carries the request out, puts
//! the answer there, and calls the operation again with the same
//! arguments, until it is done.

use vstd::prelude::*;
use crate::text::{opt_text, texts};
use crate::time::Timestamp;

verus! {

/// What lies at a path.
#[derive(Clone, Copy, Debug, PartialEq, Eq, Structural)]
pub enum PathKind {
    /// Nothing.
    Missing,
    /// A regular file.
    File,
    /// A directory.
    Directory,
    /// Something that is neither.
    Other,
}

/// What an inspection of a path found.
#[derive(Clone, Debug, PartialEq, Eq)]
pub struct PathFacts {
    pub kind: PathKind,
    /// The extension of the path's file name, without its dot.
    pub extension: Option<String>,
}

/// The archive formats that are unpacked.
#[derive(Clone, Copy, Debug, PartialEq, Eq, Structural)]
pub enum ArchiveFormat {
    Zip,
    Rar,
    SevenZip,
}

/// A run of an outside program.
#[derive(Clone, Debug, PartialEq, Eq)]
pub struct ToolCommand {
    pub program: String,
    pub args: Vec<String>,
    /// The directory to run it in, where that matters.
    pub dir: Option<String>,
}

/// One thing to delete.
#[derive(Clone, Debug, PartialEq, Eq)]
pub struct Removal {
    pub path: String,
    /// Whether the path is a directory, to go with all that is in it.
    pub recursive: bool,
}

/// One entry of a directory listing.
#[derive(Clone, Debug, PartialEq, Eq)]
pub struct DirEntry {
    pub path: String,
    pub is_dir: bool,
}

/// One entry of a directory, with what is needed to tell its age.
#[derive(Clone, Debug, PartialEq, Eq)]
pub struct FileStamp {
    pub path: String,
    /// Whether the entry is a regular file.
    pub is_file: bool,
    /// When the entry was last modified, where that could be read.
    pub modified: Option<Timestamp>,
}

/// A request to the file system or to an outside tool.
#[derive(Clone, Debug, PartialEq, Eq)]
pub enum FsRequest {
    /// Say what lies at the path. Answer: `PathFacts`.
    Inspect(String),
    /// Create the directory and its missing parents.
    CreateDirAll(String),
    /// Say whether the directory has no entry. Answer: `bool`.
    IsEmpty(String),
    /// Copy all that is in directory `from` into directory `to`.
    CopyTree { from: String, to: String },
    /// Unpack the archive into directory `dest`.
    Extract { format: ArchiveFormat, archive: String, dest: String, password: Option<String> },
    /// Copy the file into the directory under its own name. Answer: the
    /// path of the copy.
    CopyInto { file: String, dir: String },
    /// List the entries of the directory. Answer: `Vec<DirEntry>`.
    ListDir(String),
    /// Delete these, in order.
    Remove(Vec<Removal>),
    /// Measure what lies at the path. Answer: `ArchiveProbe`.
    Measure(String),
    /// Run the command to see whether the tool is there. Answer: whether
    /// it ran and reported success.
    ProbeTool(ToolCommand),
    /// Run the command.
    RunTool(ToolCommand),
    /// Pack directory `dir` into a new 7z archive without an outside tool.
    Compress { dir: String, archive: String, password: Option<String>, level: u32 },
    /// List the entries of the directory with their ages. Answer:
    /// `Vec<FileStamp>`.
    ListFiles(String),
    /// Copy the file `from` to the path `to`.
    CopyFile { from: String, to: String },
}

/// The mathematical content of a `ToolCommand`.
pub struct ToolCommandView {
    pub program: Seq<char>,
    pub args: Seq<Seq<char>>,
    pub dir: Option<Seq<char>>,
}

/// The mathematical content of a `Removal`.
pub struct RemovalView {
    pub path: Seq<char>,
    pub recursive: bool,
}

/// The mathematical content of an `FsRequest`.
pub enum FsRequestView {
    Inspect(Seq<char>),
    CreateDirAll(Seq<char>),
    IsEmpty(Seq<char>),
    CopyTree { from: Seq<char>, to: Seq<char> },
    Extract { format: ArchiveFormat, archive: Seq<char>, dest: Seq<char>, password: Option<Seq<char>> },
    CopyInto { file: Seq<char>, dir: Seq<char> },
    ListDir(Seq<char>),
    Remove(Seq<RemovalView>),
    Measure(Seq<char>),
    ProbeTool(ToolCommandView),
    RunTool(ToolCommandView),
    Compress { dir: Seq<char>, archive: Seq<char>, password: Option<Seq<char>>, level: u32 },
    ListFiles(Seq<char>),
    CopyFile { from: Seq<char>, to: Seq<char> },
}

impl View for ToolCommand {
    type V = ToolCommandView;

    open spec fn view(&self) -> ToolCommandView {
        ToolCommandView { program: self.program@, args: texts(self.args@), dir: opt_text(self.dir) }
    }
}

impl View for Removal {
    type V = RemovalView;

    open spec fn view(&self) -> RemovalView {
        RemovalView { path: self.path@, recursive: self.recursive }
    }
}

/// The content of each removal of a list.
pub open spec fn removals(v: Seq<Removal>) -> Seq<RemovalView> {
    v.map_values(|r: Removal| r@)
}

impl View for FsRequest {
    type V = FsRequestView;

    open spec fn view(&self) -> FsRequestView {
        match *self {
            FsRequest::Inspect(p) => FsRequestView::Inspect(p@),
            FsRequest::CreateDirAll(p) => FsRequestView::CreateDirAll(p@),
            FsRequest::IsEmpty(p) => FsRequestView::IsEmpty(p@),
            FsRequest::CopyTree { from, to } => FsRequestView::CopyTree { from: from@, to: to@ },
            FsRequest::Extract { format, archive, dest, password } => FsRequestView::Extract {
                format,
                archive: archive@,
                dest: dest@,
                password: opt_text(password),
            },
            FsRequest::CopyInto { file, dir } => FsRequestView::CopyInto { file: file@, dir: dir@ },
            FsRequest::ListDir(p) => FsRequestView::ListDir(p@),
            FsRequest::Remove(items) => FsRequestView::Remove(removals(items@)),
            FsRequest::Measure(p) => FsRequestView::Measure(p@),
            FsRequest::ProbeTool(c) => FsRequestView::ProbeTool(c@),
            FsRequest::RunTool(c) => FsRequestView::RunTool(c@),
            FsRequest::Compress { dir, archive, password, level } => FsRequestView::Compress {
                dir: dir@,
                archive: archive@,
                password: opt_text(password),
                level,
            },
            FsRequest::ListFiles(p) => FsRequestView::ListFiles(p@),
            FsRequest::CopyFile { from, to } => FsRequestView::CopyFile { from: from@, to: to@ },
        }
    }
}

/// One entry met while walking a directory tree.
#[derive(Clone, Copy, Debug, PartialEq, Eq, Structural)]
pub enum WalkEntry {
    /// The entry could not be read.
    Failed,
    /// The entry is not a regular file.
    NotFile,
    /// A regular file, with its length where that could be read.
    File(Option<u64>),
}

/// What a measurement of an archive path found.
#[derive(Clone, Debug, PartialEq, Eq)]
pub enum ArchiveProbe {
    /// Nothing lies at the path.
    Missing,
    /// A regular file, with its length.
    File(u64),
    /// A regular file whose length could not be read, with the failure.
    Unreadable(String),
    /// A directory, with the size of the files under it.
    Directory(u64),
    /// Something that is neither.
    Other,
}

/// What one entry of a walk adds to the size of its tree: the length of a
/// regular file whose length could be read, and nothing otherwise.
pub open spec fn entry_size(e: WalkEntry) -> nat {
    match e {
        WalkEntry::File(Some(n)) => n as nat,
        _ => 0,
    }
}

/// The size of a tree: the sum of what its entries add.
pub open spec fn walk_total(entries: Seq<WalkEntry>) -> nat
    decreases entries.len(),
{
    if entries.len() == 0 {
        0
    } else {
        walk_total(entries.drop_last()) + entry_size(entries.last())
    }
}

/// The size of a directory tree from the entries of a walk through it.
/// Entries that could not be read and entries that are not regular files
/// count for nothing, and so does a file whose length could not be read.
/// There is no result where the sum does not fit in 64 bits.
pub fn directory_size(entries: &Vec<WalkEntry>) -> (r: Option<u64>)
    ensures
        match r {
            Some(total) => total == walk_total(entries@),
            None => walk_total(entries@) > u64::MAX,
        },
{
    let mut total: u64 = 0;
    let mut i: usize = 0;
    while i < entries.len()
        invariant
            i <= entries.len(),
            total == walk_total(entries@.take(i as int)),
        decreases entries.len() - i,
    {
        let add: u64 = match entries[i] {
            WalkEntry::File(Some(n)) => n,
            _ => 0,
        };
        proof {
            assert(entries@.take(i + 1).drop_last() =~= entries@.take(i as int));
            assert(entries@.take(i + 1).last() == entries@[i as int]);
        }
        if add > u64::MAX - total {
            proof {
                walk_total_grows(entries@, i + 1);
            }
            return None;
        }
        total = total + add;
        i += 1;
    }
    proof {
        assert(entries@.take(i as int) =~= entries@);
    }
    Some(total)
}

/// A longer walk through the same entries does not have a smaller size.
pub proof fn walk_total_grows(entries: Seq<WalkEntry>, n: int)
    requires
        0 <= n <= entries.len(),
    ensures
        walk_total(entries.take(n)) <= walk_total(entries),
    decreases entries.len() - n,
{
    if n < entries.len() {
        assert(entries.take(n + 1).drop_last() =~= entries.take(n));
        walk_total_grows(entries, n + 1);
    } else {
        assert(entries.take(n) =~= entries);
    }
}

/// Where an operation stands: it needs an answer, or it is done.
#[derive(Clone, Debug, PartialEq, Eq)]
pub enum Step<R, T> {
    /// The caller is to carry out the request, record the answer in the
    /// log and call again.
    Need(R),
    /// The operation is over, with this result.
    Done(T),
}

/// A request together with the place of the log that its answer goes
/// to.
#[derive(Clone, Debug, PartialEq, Eq)]
pub struct Ask<Q, S> {
    pub request: Q,
    pub slot: S,
}

impl<Q, S, T> Step<Ask<Q, S>, T> {
    /// The step without the places of the answers.
    pub open spec fn bare(self) -> Step<Q, T> {
        match self {
            Step::Need(ask) => Step::Need(ask.request),
            Step::Done(t) => Step::Done(t),
        }
    }

    /// The place that the answer goes to, where the step is a request.
    pub open spec fn slot(self) -> Option<S> {
        match self {
            Step::Need(ask) => Some(ask.slot),
            Step::Done(_) => None,
        }
    }

    /// The step without the places of the answers.
    pub fn requests(self) -> (r: Step<Q, T>)
        ensures
            r == self.bare(),
    {
        match self {
            Step::Need(ask) => Step::Need(ask.request),
            Step::Done(t) => Step::Done(t),
        }
    }
}

/// An answer to an `FsRequest`.
#[derive(Debug, PartialEq, Eq)]
pub enum FsReply {
    /// What an inspection found.
    Facts(PathFacts),
    /// How a piece of work ended: creating, copying, unpacking, packing,
    /// removing, running a tool.
    Outcome(Result<(), String>),
    /// Whether a directory is empty.
    Empty(Result<bool, String>),
    /// The path of the copy of a file.
    Copied(Result<String, String>),
    /// The entries of a directory.
    Entries(Result<Vec<DirEntry>, String>),
    /// What a measurement found.
    Probe(ArchiveProbe),
    /// Whether a tool answered.
    Tool(bool),
    /// The entries of a directory with their ages.
    Files(Result<Vec<FileStamp>, String>),
}

/// The kinds of answers.
#[derive(Clone, Copy, Debug, PartialEq, Eq, Structural)]
pub enum ReplyKind {
    Facts,
    Outcome,
    Empty,
    Copied,
    Entries,
    Probe,
    Tool,
    Files,
}

impl FsReply {
    /// The kind of the answer.
    pub open spec fn kind(self) -> ReplyKind {
        match self {
            FsReply::Facts(_) => ReplyKind::Facts,
            FsReply::Outcome(_) => ReplyKind::Outcome,
            FsReply::Empty(_) => ReplyKind::Empty,
            FsReply::Copied(_) => ReplyKind::Copied,
            FsReply::Entries(_) => ReplyKind::Entries,
            FsReply::Probe(_) => ReplyKind::Probe,
            FsReply::Tool(_) => ReplyKind::Tool,
            FsReply::Files(_) => ReplyKind::Files,
        }
    }
}

impl FsRequestView {
    /// The kind of answer that the request calls for.
    pub open spec fn answer_kind(self) -> ReplyKind {
        match self {
            FsRequestView::Inspect(_) => ReplyKind::Facts,
            FsRequestView::CreateDirAll(_) => ReplyKind::Outcome,
            FsRequestView::IsEmpty(_) => ReplyKind::Empty,
            FsRequestView::CopyTree { .. } => ReplyKind::Outcome,
            FsRequestView::Extract { .. } => ReplyKind::Outcome,
            FsRequestView::CopyInto { .. } => ReplyKind::Copied,
            FsRequestView::ListDir(_) => ReplyKind::Entries,
            FsRequestView::Remove(_) => ReplyKind::Outcome,
            FsRequestView::Measure(_) => ReplyKind::Probe,
            FsRequestView::ProbeTool(_) => ReplyKind::Tool,
            FsRequestView::RunTool(_) => ReplyKind::Outcome,
            FsRequestView::Compress { .. } => ReplyKind::Outcome,
            FsRequestView::ListFiles(_) => ReplyKind::Files,
            FsRequestView::CopyFile { .. } => ReplyKind::Outcome,
        }
    }
}

} // verus!
