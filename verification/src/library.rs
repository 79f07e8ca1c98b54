//! The catalogue: records in the store, and the operations on them.
//!
//! Records are stored encoded. Encoding and decoding are asked of the
//! caller, like the work on the file system: an operation returns the
//! request it has, and is called again once the answer is in its log.
//! The store is written to only at the end of an operation.

use vstd::prelude::*;
use crate::config::{ConfigError, ConfigErrorView};
use crate::effect::{
    ArchiveProbe, Ask, FsReply, FsRequest, FsRequestView, PathFacts, PathKind, ReplyKind, Step,
};
use crate::metadata::{
    create_slot, create_verdict, created_record, deploy_slot, not_deployed_message, undeploy_slot,
    CreateLog, CreateSlot, CreateVerdict, DeployLog, DeploySlot, Metadata, MetadataError,
    MetadataErrorView, MetadataView, OffVerdict, Platform, PlatformView, UndeployLog,
    UndeploySlot, Verdict,
};
use crate::file::{cd_with, joined_path};
use crate::store::{
    entry_views, insert_all, is_listing, lookup, opt_bytes, Contents, Entry, EntryView, Store,
    StoreFault,
};
use crate::text::{join2, join3, opt_text, same_opt};
use crate::time::Timestamp;

verus! {

/// Every record of the catalogue, as it is handed to a reader or
/// written to the export file.
#[derive(Debug, Clone, PartialEq, Eq)]
pub struct Library {
    pub entries: Vec<Metadata>,
}

/// The content of each record of a list.
pub open spec fn record_views(v: Seq<Metadata>) -> Seq<MetadataView> {
    v.map_values(|m: Metadata| m@)
}

impl View for Library {
    type V = Seq<MetadataView>;

    open spec fn view(&self) -> Seq<MetadataView> {
        record_views(self.entries@)
    }
}

impl Default for Library {
    fn default() -> (r: Library)
        ensures
            r@ == Seq::<MetadataView>::empty(),
    {
        let r = Library { entries: Vec::new() };
        assert(r@ =~= Seq::<MetadataView>::empty());
        r
    }
}

/// Why an operation of the catalogue failed.
#[derive(Debug, Clone, PartialEq, Eq)]
pub enum LibraryError {
    /// No record has this id.
    NotFound(String),
    /// The file system reported a failure.
    FileError(String),
    /// A record could not be encoded.
    SerializeError(String),
    /// A stored record could not be decoded.
    ParseError(String),
    /// The record of a new entry could not be made.
    CreateError(MetadataError),
    /// Deploying the record of this id failed.
    DeploymentError(MetadataError, String),
    /// Deploying off the record of this id failed.
    DeploymentOffError(MetadataError, String),
    /// The configuration could not be had.
    ConfigError(ConfigError),
    /// The store could not start a transaction.
    TransactionError(String),
    /// The store could not open its table.
    TableError(String),
    /// The store could not read or write.
    StorageError(String),
    /// The store could not commit.
    CommitError(String),
    /// The export file could not be written or read as JSON.
    JSONError(String),
    /// The catalogue is held elsewhere.
    LockError,
}

/// The mathematical content of a `LibraryError`.
pub enum LibraryErrorView {
    NotFound(Seq<char>),
    FileError(Seq<char>),
    SerializeError(Seq<char>),
    ParseError(Seq<char>),
    CreateError(MetadataErrorView),
    DeploymentError(MetadataErrorView, Seq<char>),
    DeploymentOffError(MetadataErrorView, Seq<char>),
    ConfigError(ConfigErrorView),
    TransactionError(Seq<char>),
    TableError(Seq<char>),
    StorageError(Seq<char>),
    CommitError(Seq<char>),
    JSONError(Seq<char>),
    LockError,
}

impl View for LibraryError {
    type V = LibraryErrorView;

    open spec fn view(&self) -> LibraryErrorView {
        match *self {
            LibraryError::NotFound(s) => LibraryErrorView::NotFound(s@),
            LibraryError::FileError(s) => LibraryErrorView::FileError(s@),
            LibraryError::SerializeError(s) => LibraryErrorView::SerializeError(s@),
            LibraryError::ParseError(s) => LibraryErrorView::ParseError(s@),
            LibraryError::CreateError(e) => LibraryErrorView::CreateError(e@),
            LibraryError::DeploymentError(e, id) => LibraryErrorView::DeploymentError(e@, id@),
            LibraryError::DeploymentOffError(e, id) => LibraryErrorView::DeploymentOffError(e@, id@),
            LibraryError::ConfigError(e) => LibraryErrorView::ConfigError(e@),
            LibraryError::TransactionError(s) => LibraryErrorView::TransactionError(s@),
            LibraryError::TableError(s) => LibraryErrorView::TableError(s@),
            LibraryError::StorageError(s) => LibraryErrorView::StorageError(s@),
            LibraryError::CommitError(s) => LibraryErrorView::CommitError(s@),
            LibraryError::JSONError(s) => LibraryErrorView::JSONError(s@),
            LibraryError::LockError => LibraryErrorView::LockError,
        }
    }
}

impl LibraryErrorView {
    /// The message that a reader is shown.
    pub open spec fn message(self) -> Seq<char> {
        match self {
            LibraryErrorView::NotFound(id) => "Metadata with id "@ + id + " not found"@,
            LibraryErrorView::FileError(s) => "Failed to read/write library from file: "@ + s,
            LibraryErrorView::SerializeError(s) => "Failed to serialize library into bson: "@ + s,
            LibraryErrorView::ParseError(s) => "Failed to parse library file: "@ + s,
            LibraryErrorView::CreateError(e) => "Failed to create metadata entry: "@ + e.message(),
            LibraryErrorView::DeploymentError(e, id) => "Failed in deployment for "@ + id + ": "@
                + e.message(),
            LibraryErrorView::DeploymentOffError(e, id) => "Failed in deployment off for "@ + id
                + ": "@ + e.message(),
            LibraryErrorView::ConfigError(e) => "Failed with config: "@ + e.message(),
            LibraryErrorView::TransactionError(s) => "Failed in database opt: "@ + s,
            LibraryErrorView::TableError(s) => "Failed in database opt: "@ + s,
            LibraryErrorView::StorageError(s) => "Failed to storage data: "@ + s,
            LibraryErrorView::CommitError(s) => "Failed to commit data: "@ + s,
            LibraryErrorView::JSONError(s) => "Failed to export/import as JSON: "@ + s,
            LibraryErrorView::LockError => "Failed to acquire lock"@,
        }
    }

    /// Whether the error is a fault of the store.
    pub open spec fn is_store_fault(self) -> bool {
        self is TransactionError || self is TableError || self is StorageError || self is CommitError
    }

    /// Whether the error is a fault of the store that came before
    /// anything was committed.
    pub open spec fn is_read_fault(self) -> bool {
        self is TransactionError || self is TableError || self is StorageError
    }
}

/// The error that a fault of the store is reported as.
pub open spec fn fault_error(fault: StoreFault) -> LibraryErrorView {
    match fault {
        StoreFault::Open(s) => LibraryErrorView::StorageError(s@),
        StoreFault::Transaction(s) => LibraryErrorView::TransactionError(s@),
        StoreFault::Table(s) => LibraryErrorView::TableError(s@),
        StoreFault::Storage(s) => LibraryErrorView::StorageError(s@),
        StoreFault::Commit(s) => LibraryErrorView::CommitError(s@),
    }
}

impl LibraryError {
    /// The error that a fault of the store is reported as.
    pub fn from_fault(fault: StoreFault) -> (r: LibraryError)
        ensures
            r@ == fault_error(fault),
    {
        match fault {
            StoreFault::Open(s) => LibraryError::StorageError(s),
            StoreFault::Transaction(s) => LibraryError::TransactionError(s),
            StoreFault::Table(s) => LibraryError::TableError(s),
            StoreFault::Storage(s) => LibraryError::StorageError(s),
            StoreFault::Commit(s) => LibraryError::CommitError(s),
        }
    }

    /// The message that a reader is shown.
    pub fn to_text(&self) -> (r: String)
        ensures
            r@ == self@.message(),
    {
        match self {
            LibraryError::NotFound(id) => join3("Metadata with id ", id.as_str(), " not found"),
            LibraryError::FileError(s) => join2(
                "Failed to read/write library from file: ",
                s.as_str(),
            ),
            LibraryError::SerializeError(s) => join2(
                "Failed to serialize library into bson: ",
                s.as_str(),
            ),
            LibraryError::ParseError(s) => join2("Failed to parse library file: ", s.as_str()),
            LibraryError::CreateError(e) => join2(
                "Failed to create metadata entry: ",
                e.to_text().as_str(),
            ),
            LibraryError::DeploymentError(e, id) => {
                let r = join3("Failed in deployment for ", id.as_str(), ": ").concat(
                    e.to_text().as_str(),
                );
                assert(r@ =~= self@.message());
                r
            },
            LibraryError::DeploymentOffError(e, id) => {
                let r = join3("Failed in deployment off for ", id.as_str(), ": ").concat(
                    e.to_text().as_str(),
                );
                assert(r@ =~= self@.message());
                r
            },
            LibraryError::ConfigError(e) => join2("Failed with config: ", e.to_text().as_str()),
            LibraryError::TransactionError(s) => join2("Failed in database opt: ", s.as_str()),
            LibraryError::TableError(s) => join2("Failed in database opt: ", s.as_str()),
            LibraryError::StorageError(s) => join2("Failed to storage data: ", s.as_str()),
            LibraryError::CommitError(s) => join2("Failed to commit data: ", s.as_str()),
            LibraryError::JSONError(s) => join2("Failed to export/import as JSON: ", s.as_str()),
            LibraryError::LockError => String::from_str("Failed to acquire lock"),
        }
    }
}

/// Why the export file could not be written or read.
#[derive(Debug, Clone, PartialEq, Eq)]
pub enum ExportFault {
    /// The catalogue could not be put into, or taken out of, JSON.
    Json(String),
    /// The file system reported a failure.
    File(String),
}

/// The error that a fault of the export file is reported as.
pub open spec fn export_error(fault: ExportFault) -> LibraryErrorView {
    match fault {
        ExportFault::Json(s) => LibraryErrorView::JSONError(s@),
        ExportFault::File(s) => LibraryErrorView::FileError(s@),
    }
}

/// A request of the catalogue to its caller.
#[derive(Debug, Clone, PartialEq, Eq)]
pub enum Request {
    /// A request to the file system or to an outside tool.
    Fs(FsRequest),
    /// Decode a stored record. Answer: the record, or why it is none.
    Decode(Vec<u8>),
    /// Encode a record to store it. Answer: the encoding, or why there
    /// is none.
    Encode(Metadata),
    /// Write the catalogue as JSON to the file at `path`, in place of
    /// what is there.
    WriteExport { path: String, library: Library },
    /// Read the catalogue from the JSON file at `path`. Answer: the
    /// catalogue, or why there is none.
    ReadExport(String),
}

/// The mathematical content of a `Request`.
pub enum RequestView {
    Fs(FsRequestView),
    Decode(Seq<u8>),
    Encode(MetadataView),
    WriteExport { path: Seq<char>, library: Seq<MetadataView> },
    ReadExport(Seq<char>),
}

impl View for Request {
    type V = RequestView;

    open spec fn view(&self) -> RequestView {
        match *self {
            Request::Fs(r) => RequestView::Fs(r@),
            Request::Decode(bytes) => RequestView::Decode(bytes@),
            Request::Encode(m) => RequestView::Encode(m@),
            Request::WriteExport { path, library } => RequestView::WriteExport {
                path: path@,
                library: library@,
            },
            Request::ReadExport(path) => RequestView::ReadExport(path@),
        }
    }
}

/// An answer to a `Request`.
#[derive(Debug, PartialEq, Eq)]
pub enum Reply {
    /// An answer of the file system or of an outside tool.
    Fs(FsReply),
    /// A stored record, decoded.
    Decoded(Result<Metadata, String>),
    /// A record, encoded.
    Encoded(Result<Vec<u8>, String>),
    /// How writing the export file ended.
    Written(Result<(), ExportFault>),
    /// The catalogue that was read from the export file.
    Read(Result<Library, ExportFault>),
}

/// The kinds of answers to a `Request`.
#[derive(Clone, Copy, Debug, PartialEq, Eq, Structural)]
pub enum AnswerKind {
    Fs(ReplyKind),
    Decoded,
    Encoded,
    Written,
    Read,
}

impl Reply {
    /// The kind of the answer.
    pub open spec fn kind(self) -> AnswerKind {
        match self {
            Reply::Fs(reply) => AnswerKind::Fs(reply.kind()),
            Reply::Decoded(_) => AnswerKind::Decoded,
            Reply::Encoded(_) => AnswerKind::Encoded,
            Reply::Written(_) => AnswerKind::Written,
            Reply::Read(_) => AnswerKind::Read,
        }
    }
}

impl RequestView {
    /// The kind of answer that the request calls for.
    pub open spec fn answer_kind(self) -> AnswerKind {
        match self {
            RequestView::Fs(q) => AnswerKind::Fs(q.answer_kind()),
            RequestView::Decode(_) => AnswerKind::Decoded,
            RequestView::Encode(_) => AnswerKind::Encoded,
            RequestView::WriteExport { .. } => AnswerKind::Written,
            RequestView::ReadExport(_) => AnswerKind::Read,
        }
    }
}

/// What an operation of the catalogue has come to: a request, a
/// failure, or its result.
pub enum Outcome<T> {
    Ask(RequestView),
    Fail(LibraryErrorView),
    Give(T),
}

/// What a step that ends without a value has come to.
pub open spec fn unit_outcome(s: Step<Request, Result<(), LibraryError>>) -> Outcome<()> {
    match s {
        Step::Need(q) => Outcome::Ask(q@),
        Step::Done(Err(e)) => Outcome::Fail(e@),
        Step::Done(Ok(())) => Outcome::Give(()),
    }
}

/// What a step that ends with a record has come to.
pub open spec fn record_outcome(s: Step<Request, Result<Metadata, LibraryError>>) -> Outcome<
    MetadataView,
> {
    match s {
        Step::Need(q) => Outcome::Ask(q@),
        Step::Done(Err(e)) => Outcome::Fail(e@),
        Step::Done(Ok(m)) => Outcome::Give(m@),
    }
}

/// What a step that ends with the catalogue has come to.
pub open spec fn library_outcome(s: Step<Request, Result<Library, LibraryError>>) -> Outcome<
    Seq<MetadataView>,
> {
    match s {
        Step::Need(q) => Outcome::Ask(q@),
        Step::Done(Err(e)) => Outcome::Fail(e@),
        Step::Done(Ok(l)) => Outcome::Give(l@),
    }
}

/// Whether a step failed with a fault of the store.
pub open spec fn store_fault<T>(s: Step<Request, Result<T, LibraryError>>) -> bool {
    s matches Step::Done(Err(e)) && e@.is_store_fault()
}

/// Whether a step failed with a fault of the store that came before
/// anything was committed.
pub open spec fn read_fault<T>(s: Step<Request, Result<T, LibraryError>>) -> bool {
    s matches Step::Done(Err(e)) && e@.is_read_fault()
}

/// The answer gathered while getting a record.
#[derive(Debug, Clone, PartialEq, Eq)]
pub struct GetLog {
    /// The stored record, decoded.
    pub decoded: Option<Result<Metadata, String>>,
}

impl GetLog {
    /// The log of a reading that has not begun.
    pub fn new() -> (r: GetLog)
        ensures
            r.decoded is None,
    {
        GetLog { decoded: None }
    }
}

/// The place of a `GetLog`.
#[derive(Clone, Copy, Debug, PartialEq, Eq, Structural)]
pub enum GetSlot {
    Decoded,
}

impl GetLog {
    /// Whether the place holds no answer.
    pub open spec fn missing(self, slot: GetSlot) -> bool {
        self.decoded is None
    }

    /// The log with the answer in the place, where it is of the kind
    /// that the place takes.
    pub open spec fn filled(self, slot: GetSlot, reply: Reply) -> GetLog {
        match reply {
            Reply::Decoded(r) => GetLog { decoded: Some(r) },
            _ => self,
        }
    }

    /// Puts the answer in the place. An answer of another kind than
    /// the place takes is not put there, and the result says so.
    pub fn fill(&mut self, slot: GetSlot, reply: Reply) -> (r: bool)
        ensures
            r == (reply.kind() == AnswerKind::Decoded),
            *final(self) == old(self).filled(slot, reply),
    {
        match reply {
            Reply::Decoded(r) => {
                self.decoded = Some(r);
                true
            },
            _ => false,
        }
    }
}

/// What getting the record of `id` has come to, where `stored` is what
/// the store holds under that id: no record, the request to decode it,
/// the record, or that it could not be decoded.
pub open spec fn get_verdict(id: Seq<char>, stored: Option<Seq<u8>>, log: GetLog) -> Outcome<
    MetadataView,
> {
    match stored {
        None => Outcome::Fail(LibraryErrorView::NotFound(id)),
        Some(bytes) => match log.decoded {
            None => Outcome::Ask(RequestView::Decode(bytes)),
            Some(Ok(m)) => Outcome::Give(m@),
            Some(Err(e)) => Outcome::Fail(LibraryErrorView::ParseError(e@)),
        },
    }
}

/// Decides what getting the record of `id` has come to, where `stored`
/// is what the store holds under that id.
pub fn found_record(id: &str, stored: Option<Vec<u8>>, log: &GetLog) -> (r: Step<
    Ask<Request, GetSlot>,
    Result<Metadata, LibraryError>,
>)
    ensures
        record_outcome(r.bare()) == get_verdict(id@, opt_bytes(stored), *log),
{
    match stored {
        None => Step::Done(Err(LibraryError::NotFound(String::from_str(id)))),
        Some(bytes) => match &log.decoded {
            None => Step::Need(Ask { request: Request::Decode(bytes), slot: GetSlot::Decoded }),
            Some(Ok(m)) => Step::Done(Ok(m.duplicate())),
            Some(Err(e)) => Step::Done(Err(LibraryError::ParseError(e.clone()))),
        },
    }
}

/// Runs a transaction that writes nothing, so that a fault of the store
/// shows now and not at the first real use. The store holds what it
/// held. When the transaction succeeds the store has its table, so that
/// it can be read from; a store that had its table keeps it. It fails
/// only with a fault of the store.
pub fn lib_fresh(store: &mut Store) -> (r: Result<(), LibraryError>)
    ensures
        final(store)@ == old(store)@,
        r matches Err(e) ==> e@.is_store_fault(),
        r is Ok ==> final(store).has_table(),
        old(store).has_table() ==> final(store).has_table(),
{
    match store.warm_up() {
        Ok(()) => Ok(()),
        Err(fault) => Err(LibraryError::from_fault(fault)),
    }
}

/// Gets a copy of the record of `id`, as far as the answer in `log`
/// allows. But for a fault of the store, the result is the record that
/// the store holds under `id`, as decoded; the request to decode it;
/// that it could not be decoded; or that there is none.
pub fn lib_get(store: &Store, id: &str, log: &GetLog) -> (r: Step<
    Ask<Request, GetSlot>,
    Result<Metadata, LibraryError>,
>)
    ensures
        read_fault(r.bare()) || record_outcome(r.bare()) == get_verdict(
            id@,
            lookup(store@, id@),
            *log,
        ),
{
    match store.get(id) {
        Ok(stored) => found_record(id, stored, log),
        Err(fault) => Step::Done(Err(LibraryError::from_fault(fault))),
    }
}

/// Removes the record of `id`. When it succeeds the store holds no
/// record of that id and is otherwise as before; that there was none is
/// no failure. It fails only with a fault of the store, and one that
/// came before the commit leaves the store as it was.
pub fn lib_del(store: &mut Store, id: &str) -> (r: Result<(), LibraryError>)
    ensures
        r is Ok ==> final(store)@ == old(store)@.remove(id@),
        r matches Err(e) ==> e@.is_store_fault() && (e@.is_read_fault() ==> final(store)@ == old(store)@),
{
    match store.delete(id) {
        Ok(()) => Ok(()),
        Err(fault) => Err(LibraryError::from_fault(fault)),
    }
}


/// The answers gathered while getting every record.
#[derive(Debug, Clone, PartialEq, Eq)]
pub struct GetAllLog {
    /// The stored records, decoded, in the order in which they were
    /// asked for.
    pub decoded: Vec<Result<Metadata, String>>,
}

impl GetAllLog {
    /// The log of a reading that has not begun.
    pub fn new() -> (r: GetAllLog)
        ensures
            r.decoded@.len() == 0,
    {
        GetAllLog { decoded: Vec::new() }
    }
}

/// The place of a `GetAllLog`: behind the answers that are there.
#[derive(Clone, Copy, Debug, PartialEq, Eq, Structural)]
pub enum GetAllSlot {
    Next,
}

impl GetAllLog {
    /// Puts the answer behind those that are there. An answer of
    /// another kind than the log takes is not put there, and the result
    /// says so.
    pub fn fill(&mut self, slot: GetAllSlot, reply: Reply) -> (r: bool)
        ensures
            r == (reply.kind() == AnswerKind::Decoded),
            match reply {
                Reply::Decoded(x) => final(self).decoded@ == old(self).decoded@.push(x),
                _ => *final(self) == *old(self),
            },
    {
        match reply {
            Reply::Decoded(r) => {
                self.decoded.push(r);
                true
            },
            _ => false,
        }
    }
}

/// What decoding the first `n` of the listed entries has come to: the
/// records, the request to decode the first entry that has no answer,
/// or the first failure to decode.
pub open spec fn collect_upto(entries: Seq<Entry>, decoded: Seq<Result<Metadata, String>>, n: nat) -> Outcome<
    Seq<MetadataView>,
>
    decreases n,
{
    if n == 0 {
        Outcome::Give(Seq::empty())
    } else {
        match collect_upto(entries, decoded, (n - 1) as nat) {
            Outcome::Give(records) => if n - 1 < decoded.len() {
                match decoded[n - 1] {
                    Ok(m) => Outcome::Give(records.push(m@)),
                    Err(e) => Outcome::Fail(LibraryErrorView::ParseError(e@)),
                }
            } else {
                Outcome::Ask(RequestView::Decode(entries[n - 1].value@))
            },
            other => other,
        }
    }
}

/// What decoding all the listed entries has come to. One record that
/// cannot be decoded fails the whole.
pub open spec fn collect_verdict(entries: Seq<Entry>, decoded: Seq<Result<Metadata, String>>) -> Outcome<
    Seq<MetadataView>,
> {
    collect_upto(entries, decoded, entries.len())
}

/// Decides what decoding all the listed entries has come to.
pub fn collect_records(entries: Vec<Entry>, log: &GetAllLog) -> (r: Step<
    Ask<Request, GetAllSlot>,
    Result<Library, LibraryError>,
>)
    ensures
        library_outcome(r.bare()) == collect_verdict(entries@, log.decoded@),
{
    let mut records: Vec<Metadata> = Vec::new();
    let mut i: usize = 0;
    assert(record_views(records@) =~= Seq::<MetadataView>::empty());
    while i < entries.len()
        invariant
            i <= entries.len(),
            collect_upto(entries@, log.decoded@, i as nat) == Outcome::Give(record_views(records@)),
        decreases entries.len() - i,
    {
        if i < log.decoded.len() {
            match &log.decoded[i] {
                Ok(m) => {
                    let ghost before = records@;
                    records.push(m.duplicate());
                    assert(record_views(records@) =~= record_views(before).push(m@));
                },
                Err(e) => {
                    let r = Step::Done(Err(LibraryError::ParseError(e.clone())));
                    proof {
                        collect_failure_stays(entries@, log.decoded@, (i + 1) as nat, entries@.len());
                    }
                    return r;
                },
            }
        } else {
            let r = Step::Need(
                Ask { request: Request::Decode(entries[i].value.clone()), slot: GetAllSlot::Next },
            );
            proof {
                collect_failure_stays(entries@, log.decoded@, (i + 1) as nat, entries@.len());
            }
            return r;
        }
        i += 1;
    }
    Step::Done(Ok(Library { entries: records }))
}

/// Once decoding has come to a request or a failure, it stays there
/// however many more entries are listed.
pub proof fn collect_failure_stays(
    entries: Seq<Entry>,
    decoded: Seq<Result<Metadata, String>>,
    n: nat,
    m: nat,
)
    requires
        n <= m,
        !(collect_upto(entries, decoded, n) is Give),
    ensures
        collect_upto(entries, decoded, m) == collect_upto(entries, decoded, n),
    decreases m,
{
    if n < m {
        collect_failure_stays(entries, decoded, n, (m - 1) as nat);
    }
}

/// Gets every record, as far as the answers in `log` allow. But for a
/// fault of the store, the result is what decoding a listing of the
/// store has come to: every record, or none at all.
pub fn lib_get_all(store: &Store, log: &GetAllLog) -> (r: Step<
    Ask<Request, GetAllSlot>,
    Result<Library, LibraryError>,
>)
    ensures
        read_fault(r.bare()) || exists|entries: Seq<Entry>|
            is_listing(entries, store@) && library_outcome(r.bare()) == #[trigger] collect_verdict(
                entries,
                log.decoded@,
            ),
{
    match store.get_all() {
        Ok(entries) => {
            let ghost listed = entries@;
            let r = collect_records(entries, log);
            assert(is_listing(listed, store@) && library_outcome(r.bare()) == collect_verdict(
                listed,
                log.decoded@,
            ));
            r
        },
        Err(fault) => Step::Done(Err(LibraryError::from_fault(fault))),
    }
}

/// The answers gathered while adding a record.
#[derive(Debug, Clone, PartialEq, Eq)]
pub struct AddLog {
    /// The record that the store holds under the same id, decoded.
    pub existing: Option<Result<Metadata, String>>,
    /// The measurement of the archive.
    pub size: Option<ArchiveProbe>,
    /// The record to store, encoded.
    pub encoded: Option<Result<Vec<u8>, String>>,
}

impl AddLog {
    /// The log of an adding that has not begun.
    pub fn new() -> (r: AddLog)
        ensures
            r.existing is None,
            r.size is None,
            r.encoded is None,
    {
        AddLog { existing: None, size: None, encoded: None }
    }
}

/// The places of an `AddLog`.
#[derive(Clone, Copy, Debug, PartialEq, Eq, Structural)]
pub enum AddSlot {
    Existing,
    Size,
    Encoded,
}

impl AddSlot {
    /// The kind of answer that the place takes.
    pub open spec fn kind(self) -> AnswerKind {
        match self {
            AddSlot::Existing => AnswerKind::Decoded,
            AddSlot::Size => AnswerKind::Fs(ReplyKind::Probe),
            AddSlot::Encoded => AnswerKind::Encoded,
        }
    }
}

/// The place that the answer to a request of an adding goes to.
pub open spec fn add_slot(request: RequestView) -> AddSlot {
    match request {
        RequestView::Decode(_) => AddSlot::Existing,
        RequestView::Encode(_) => AddSlot::Encoded,
        _ => AddSlot::Size,
    }
}

impl AddLog {
    /// Whether the place holds no answer.
    pub open spec fn missing(self, slot: AddSlot) -> bool {
        match slot {
            AddSlot::Existing => self.existing is None,
            AddSlot::Size => self.size is None,
            AddSlot::Encoded => self.encoded is None,
        }
    }

    /// The log with the answer in the place, where it is of the kind
    /// that the place takes.
    pub open spec fn filled(self, slot: AddSlot, reply: Reply) -> AddLog {
        match (slot, reply) {
            (AddSlot::Existing, Reply::Decoded(r)) => AddLog { existing: Some(r), ..self },
            (AddSlot::Size, Reply::Fs(FsReply::Probe(p))) => AddLog { size: Some(p), ..self },
            (AddSlot::Encoded, Reply::Encoded(r)) => AddLog { encoded: Some(r), ..self },
            _ => self,
        }
    }

    /// Puts the answer in the place. An answer of another kind than
    /// the place takes is not put there, and the result says so.
    pub fn fill(&mut self, slot: AddSlot, reply: Reply) -> (r: bool)
        ensures
            r == (reply.kind() == slot.kind()),
            *final(self) == old(self).filled(slot, reply),
    {
        match (slot, reply) {
            (AddSlot::Existing, Reply::Decoded(r)) => {
                self.existing = Some(r);
                true
            },
            (AddSlot::Size, Reply::Fs(FsReply::Probe(p))) => {
                self.size = Some(p);
                true
            },
            (AddSlot::Encoded, Reply::Encoded(r)) => {
                self.encoded = Some(r);
                true
            },
            _ => false,
        }
    }
}

/// What adding a record has come to, before the store is written to.
pub enum AddVerdict {
    /// It needs the answer to a request.
    Ask(RequestView),
    /// It failed.
    Fail(LibraryErrorView),
    /// The record is to be stored with this encoding.
    Put { record: MetadataView, bytes: Seq<u8> },
}

/// What adding a record has come to, as it is computed.
pub enum AddDecision {
    Ask(Request),
    Fail(LibraryError),
    Put { record: Metadata, bytes: Vec<u8> },
}

impl View for AddDecision {
    type V = AddVerdict;

    open spec fn view(&self) -> AddVerdict {
        match *self {
            AddDecision::Ask(q) => AddVerdict::Ask(q@),
            AddDecision::Fail(e) => AddVerdict::Fail(e@),
            AddDecision::Put { record, bytes } => AddVerdict::Put { record: record@, bytes: bytes@ },
        }
    }
}

/// What storing `record` has come to: the request to encode it, the
/// failure to do so, or the encoding to store.
pub open spec fn encode_verdict(record: MetadataView, encoded: Option<Result<Vec<u8>, String>>) -> AddVerdict {
    match encoded {
        None => AddVerdict::Ask(RequestView::Encode(record)),
        Some(Err(e)) => AddVerdict::Fail(LibraryErrorView::SerializeError(e@)),
        Some(Ok(bytes)) => AddVerdict::Put { record, bytes: bytes@ },
    }
}

/// What updating the record of an id that is taken has come to. Where
/// the archive path is not the one of the record that is there, the
/// archive is measured anew, and whether that succeeds does not matter.
/// The record is updated at `now` in every case.
pub open spec fn update_verdict(
    data: MetadataView,
    existing: MetadataView,
    log: AddLog,
    now: Timestamp,
) -> AddVerdict {
    if data.archive_path != existing.archive_path {
        match data.archive_path {
            Some(archive) => match log.size {
                None => AddVerdict::Ask(RequestView::Fs(FsRequestView::Measure(archive))),
                Some(probe) => encode_verdict(data.after_size(probe).updated(now), log.encoded),
            },
            None => encode_verdict(data.updated(now), log.encoded),
        }
    } else {
        encode_verdict(data.updated(now), log.encoded)
    }
}

/// What adding the record `data` has come to, where `stored` is what was
/// found under its id. A record whose id is free, or taken by what
/// cannot be decoded, is stored as it is.
pub open spec fn add_verdict(
    data: MetadataView,
    stored: Option<Seq<u8>>,
    log: AddLog,
    now: Timestamp,
) -> AddVerdict {
    match stored {
        Some(bytes) => match log.existing {
            None => AddVerdict::Ask(RequestView::Decode(bytes)),
            Some(Ok(existing)) => update_verdict(data, existing@, log, now),
            Some(Err(_)) => encode_verdict(data, log.encoded),
        },
        None => encode_verdict(data, log.encoded),
    }
}

fn encode_record(record: Metadata, encoded: &Option<Result<Vec<u8>, String>>) -> (r: AddDecision)
    ensures
        r@ == encode_verdict(record@, *encoded),
{
    match encoded {
        None => AddDecision::Ask(Request::Encode(record)),
        Some(Err(e)) => AddDecision::Fail(LibraryError::SerializeError(e.clone())),
        Some(Ok(bytes)) => AddDecision::Put { record, bytes: bytes.clone() },
    }
}

/// Decides what adding the record `data` has come to, where `stored` is
/// what was found under its id.
pub fn merge_record(data: Metadata, stored: Option<Vec<u8>>, log: &AddLog, now: Timestamp) -> (r:
    AddDecision)
    ensures
        r@ == add_verdict(data@, opt_bytes(stored), *log, now),
{
    let mut data = data;
    match stored {
        Some(bytes) => match &log.existing {
            None => AddDecision::Ask(Request::Decode(bytes)),
            Some(Ok(existing)) => {
                if !same_opt(&data.archive_path, &existing.archive_path) {
                    match data.size_request() {
                        Some(request) => match &log.size {
                            None => {
                                return AddDecision::Ask(Request::Fs(request));
                            },
                            Some(probe) => {
                                let _ = data.calculate_size(probe);
                            },
                        },
                        None => {},
                    }
                }
                data.mark_updated_at(now);
                encode_record(data, &log.encoded)
            },
            Some(Err(_)) => encode_record(data, &log.encoded),
        },
        None => encode_record(data, &log.encoded),
    }
}

/// Whether `step`, with the store going from `before` to `after`, is
/// what `verdict` calls for: a request or a failure with the store as
/// it was; or the record stored under its id, with `done` as the end of
/// the operation; or a fault of the store, which left the store as it
/// was if it came before the commit.
pub open spec fn add_result(
    verdict: AddVerdict,
    done: Outcome<()>,
    step: Step<Request, Result<(), LibraryError>>,
    before: Contents,
    after: Contents,
) -> bool {
    match verdict {
        AddVerdict::Ask(q) => step matches Step::Need(x) && x@ == q && after == before,
        AddVerdict::Fail(e) => step matches Step::Done(Err(x)) && x@ == e && after == before,
        AddVerdict::Put { record, bytes } => (unit_outcome(step) == done && after == before.insert(
            record.id,
            bytes,
        )) || (store_fault(step) && (read_fault(step) ==> after == before)),
    }
}

/// Whether `step` is what adding `data` to a store that held `before`
/// calls for, with `done` as the end of the operation once the record
/// is stored. A fault of the store while looking for a record of the
/// same id counts as finding none.
pub open spec fn added(
    data: MetadataView,
    log: AddLog,
    now: Timestamp,
    done: Outcome<()>,
    step: Step<Request, Result<(), LibraryError>>,
    before: Contents,
    after: Contents,
) -> bool {
    ||| add_result(add_verdict(data, lookup(before, data.id), log, now), done, step, before, after)
    ||| add_result(add_verdict(data, None, log, now), done, step, before, after)
}

/// The place that the answer to the request of a step of an adding
/// goes to.
pub open spec fn add_slots(step: Step<Ask<Request, AddSlot>, Result<(), LibraryError>>) -> bool {
    step matches Step::Need(ask) ==> ask.slot == add_slot(ask.request@)
}

fn add_ask(request: Request) -> (r: Ask<Request, AddSlot>)
    ensures
        r.request == request,
        r.slot == add_slot(request@),
{
    let slot = match &request {
        Request::Decode(_) => AddSlot::Existing,
        Request::Encode(_) => AddSlot::Encoded,
        _ => AddSlot::Size,
    };
    Ask { request, slot }
}

fn store_decision(store: &mut Store, decision: AddDecision) -> (r: Step<
    Ask<Request, AddSlot>,
    Result<(), LibraryError>,
>)
    ensures
        add_result(decision@, Outcome::Give(()), r.bare(), old(store)@, final(store)@),
        add_slots(r),
{
    match decision {
        AddDecision::Ask(q) => Step::Need(add_ask(q)),
        AddDecision::Fail(e) => Step::Done(Err(e)),
        AddDecision::Put { record, bytes } => match store.put(record.id.as_str(), bytes) {
            Ok(()) => Step::Done(Ok(())),
            Err(fault) => Step::Done(Err(LibraryError::from_fault(fault))),
        },
    }
}

/// Adds a record, as far as the answers in `log` allow. Where the store
/// holds a record of the same id, the new one takes its place, updated
/// at `now` and measured anew where its archive path is another; where
/// it holds none, the record is stored as it is. The store is written
/// to once, at the end.
pub fn lib_add(store: &mut Store, data: Metadata, log: &AddLog, now: Timestamp) -> (r: Step<
    Ask<Request, AddSlot>,
    Result<(), LibraryError>,
>)
    ensures
        added(data@, *log, now, Outcome::Give(()), r.bare(), old(store)@, final(store)@),
        add_slots(r),
{
    let stored = match store.get(data.id.as_str()) {
        Ok(found) => found,
        Err(_) => None,
    };
    let decision = merge_record(data, stored, log, now);
    store_decision(store, decision)
}

/// Adds a record in the place of the one of its id: the same as
/// `lib_add`.
pub fn lib_rep(store: &mut Store, data: Metadata, log: &AddLog, now: Timestamp) -> (r: Step<
    Ask<Request, AddSlot>,
    Result<(), LibraryError>,
>)
    ensures
        added(data@, *log, now, Outcome::Give(()), r.bare(), old(store)@, final(store)@),
        add_slots(r),
{
    lib_add(store, data, log, now)
}

/// Adding a record whose id is free stores it as it is. Adding one whose
/// id is taken stores it under the same id, with the time of its
/// creation as given and updated at `now`: later than it was updated
/// before, and than the record that was there, where `now` is later.
pub proof fn add_inserts_or_updates(
    data: MetadataView,
    bytes: Seq<u8>,
    existing: Metadata,
    log: AddLog,
    now: Timestamp,
)
    ensures
        add_verdict(data, None, log, now) matches AddVerdict::Put { record, .. } ==> record == data,
        log.existing == Some(Ok::<Metadata, String>(existing)) ==> (add_verdict(
            data,
            Some(bytes),
            log,
            now,
        ) matches AddVerdict::Put { record, .. } ==> {
            &&& record.id == data.id
            &&& record.date_created == data.date_created
            &&& record.date_updated == now
            &&& data.date_updated.before(now) ==> data.date_updated.before(record.date_updated)
            &&& existing@.date_updated.before(now) ==> existing@.date_updated.before(
                record.date_updated,
            )
        }),
{
}


/// The name of the export file in the data directory.
pub const LIB_FILE_EXPORT: &'static str = "library.json";

/// The name of the store file in the data directory.
pub const LIB_FILE_NAME: &'static str = "library.redb";

/// The name of the directory of new archives in the data directory.
pub const ARCHIVE_DIR_NAME: &'static str = "archive";

/// The name of the directory of backups in the data directory.
pub const BACKUP_DIR_NAME: &'static str = "backup";

/// The answers gathered while exporting.
#[derive(Debug, Clone, PartialEq, Eq)]
pub struct ExportLog {
    /// The answers gathered while getting every record.
    pub all: GetAllLog,
    /// How writing the export file ended.
    pub written: Option<Result<(), ExportFault>>,
}

impl ExportLog {
    /// The log of an export that has not begun.
    pub fn new() -> (r: ExportLog)
        ensures
            r.all.decoded@.len() == 0,
            r.written is None,
    {
        ExportLog { all: GetAllLog::new(), written: None }
    }
}

/// The places of an `ExportLog`.
#[derive(Clone, Copy, Debug, PartialEq, Eq, Structural)]
pub enum ExportSlot {
    /// Behind the decoded records that are there.
    Decoded,
    Written,
}

impl ExportSlot {
    /// The kind of answer that the place takes.
    pub open spec fn kind(self) -> AnswerKind {
        match self {
            ExportSlot::Decoded => AnswerKind::Decoded,
            ExportSlot::Written => AnswerKind::Written,
        }
    }
}

/// The place that the answer to a request of an export goes to.
pub open spec fn export_slot(request: RequestView) -> ExportSlot {
    match request {
        RequestView::Decode(_) => ExportSlot::Decoded,
        _ => ExportSlot::Written,
    }
}

impl ExportLog {
    /// Puts the answer in the place. An answer of another kind than
    /// the place takes is not put there, and the result says so.
    pub fn fill(&mut self, slot: ExportSlot, reply: Reply) -> (r: bool)
        ensures
            r == (reply.kind() == slot.kind()),
            match (slot, reply) {
                (ExportSlot::Decoded, Reply::Decoded(x)) => final(self).all.decoded@ == old(self).all.decoded@.push(x) && final(self).written == old(self).written,
                (ExportSlot::Written, Reply::Written(x)) => final(self).written == Some(x) && final(self).all == old(self).all,
                _ => *final(self) == *old(self),
            },
    {
        match (slot, reply) {
            (ExportSlot::Decoded, Reply::Decoded(x)) => {
                self.all.decoded.push(x);
                true
            },
            (ExportSlot::Written, Reply::Written(x)) => {
                self.written = Some(x);
                true
            },
            _ => false,
        }
    }
}

/// What exporting has come to, where `collected` is what getting every
/// record has come to: once all are there, they are written to the
/// export file in the data directory.
pub open spec fn export_verdict(
    collected: Outcome<Seq<MetadataView>>,
    data_dir: Seq<char>,
    log: ExportLog,
) -> Outcome<()> {
    match collected {
        Outcome::Ask(q) => Outcome::Ask(q),
        Outcome::Fail(e) => Outcome::Fail(e),
        Outcome::Give(library) => match log.written {
            None => Outcome::Ask(
                RequestView::WriteExport { path: joined_path(data_dir, LIB_FILE_EXPORT@), library },
            ),
            Some(Err(fault)) => Outcome::Fail(export_error(fault)),
            Some(Ok(())) => Outcome::Give(()),
        },
    }
}

fn export_fault(fault: &ExportFault) -> (r: LibraryError)
    ensures
        r@ == export_error(*fault),
{
    match fault {
        ExportFault::Json(s) => LibraryError::JSONError(s.clone()),
        ExportFault::File(s) => LibraryError::FileError(s.clone()),
    }
}

/// Writes every record to the export file in `data_dir`, in place of
/// what is there, as far as the answers in `log` allow. Nothing is
/// written unless every record could be decoded.
pub fn lib_export(store: &Store, data_dir: &str, log: &ExportLog) -> (r: Step<
    Ask<Request, ExportSlot>,
    Result<(), LibraryError>,
>)
    ensures
        read_fault(r.bare()) || exists|entries: Seq<Entry>|
            is_listing(entries, store@) && unit_outcome(r.bare()) == export_verdict(
                #[trigger] collect_verdict(entries, log.all.decoded@),
                data_dir@,
                *log,
            ),
        r matches Step::Need(ask) ==> ask.slot == export_slot(ask.request@),
{
    match lib_get_all(store, &log.all).requests() {
        Step::Need(q) => {
            let slot = match &q {
                Request::Decode(_) => ExportSlot::Decoded,
                _ => ExportSlot::Written,
            };
            Step::Need(Ask { request: q, slot })
        },
        Step::Done(Err(e)) => Step::Done(Err(e)),
        Step::Done(Ok(library)) => match &log.written {
            None => Step::Need(
                Ask {
                    request: Request::WriteExport {
                        path: cd_with(data_dir, LIB_FILE_EXPORT),
                        library,
                    },
                    slot: ExportSlot::Written,
                },
            ),
            Some(Err(fault)) => Step::Done(Err(export_fault(fault))),
            Some(Ok(())) => Step::Done(Ok(())),
        },
    }
}

/// The answers gathered while importing.
#[derive(Debug, Clone, PartialEq, Eq)]
pub struct ImportLog {
    /// What lies at the path of the export file.
    pub file: Option<PathFacts>,
    /// The catalogue that was read from the export file.
    pub read: Option<Result<Library, ExportFault>>,
    /// The records of that catalogue, encoded, in their order.
    pub encoded: Vec<Result<Vec<u8>, String>>,
}

impl ImportLog {
    /// The log of an import that has not begun.
    pub fn new() -> (r: ImportLog)
        ensures
            r.file is None,
            r.read is None,
            r.encoded@.len() == 0,
    {
        ImportLog { file: None, read: None, encoded: Vec::new() }
    }
}

/// The places of an `ImportLog`.
#[derive(Clone, Copy, Debug, PartialEq, Eq, Structural)]
pub enum ImportSlot {
    File,
    Read,
    /// Behind the encoded records that are there.
    Encoded,
}

impl ImportSlot {
    /// The kind of answer that the place takes.
    pub open spec fn kind(self) -> AnswerKind {
        match self {
            ImportSlot::File => AnswerKind::Fs(ReplyKind::Facts),
            ImportSlot::Read => AnswerKind::Read,
            ImportSlot::Encoded => AnswerKind::Encoded,
        }
    }
}

/// The place that the answer to a request of an import goes to.
pub open spec fn import_slot(request: RequestView) -> ImportSlot {
    match request {
        RequestView::ReadExport(_) => ImportSlot::Read,
        RequestView::Encode(_) => ImportSlot::Encoded,
        _ => ImportSlot::File,
    }
}

impl ImportLog {
    /// Puts the answer in the place. An answer of another kind than
    /// the place takes is not put there, and the result says so.
    pub fn fill(&mut self, slot: ImportSlot, reply: Reply) -> (r: bool)
        ensures
            r == (reply.kind() == slot.kind()),
            match (slot, reply) {
                (ImportSlot::File, Reply::Fs(FsReply::Facts(f))) => *final(self) == (ImportLog {
                    file: Some(f),
                    ..*old(self)
                }),
                (ImportSlot::Read, Reply::Read(x)) => *final(self) == (ImportLog {
                    read: Some(x),
                    ..*old(self)
                }),
                (ImportSlot::Encoded, Reply::Encoded(x)) => final(self).encoded@ == old(self).encoded@.push(x) && final(self).file == old(self).file && final(self).read
                    == old(self).read,
                _ => *final(self) == *old(self),
            },
    {
        match (slot, reply) {
            (ImportSlot::File, Reply::Fs(FsReply::Facts(f))) => {
                self.file = Some(f);
                true
            },
            (ImportSlot::Read, Reply::Read(x)) => {
                self.read = Some(x);
                true
            },
            (ImportSlot::Encoded, Reply::Encoded(x)) => {
                self.encoded.push(x);
                true
            },
            _ => false,
        }
    }
}

/// What an import has come to, before the store is written to.
pub enum ImportVerdict {
    /// It needs the answer to a request.
    Ask(RequestView),
    /// It failed.
    Fail(LibraryErrorView),
    /// There is no export file, and nothing to do.
    Skip,
    /// These entries are to be stored.
    Put(Seq<EntryView>),
}

/// What encoding the first `n` records has come to: the entries to
/// store, the request to encode the first record that has no answer, or
/// the first failure to encode.
pub open spec fn encode_upto(records: Seq<MetadataView>, encoded: Seq<Result<Vec<u8>, String>>, n: nat) -> ImportVerdict
    decreases n,
{
    if n == 0 {
        ImportVerdict::Put(Seq::empty())
    } else {
        match encode_upto(records, encoded, (n - 1) as nat) {
            ImportVerdict::Put(entries) => if n - 1 < encoded.len() {
                match encoded[n - 1] {
                    Ok(bytes) => ImportVerdict::Put(
                        entries.push(EntryView { key: records[n - 1].id, value: bytes@ }),
                    ),
                    Err(e) => ImportVerdict::Fail(LibraryErrorView::SerializeError(e@)),
                }
            } else {
                ImportVerdict::Ask(RequestView::Encode(records[n - 1]))
            },
            other => other,
        }
    }
}

/// Once encoding has come to a request or a failure, it stays there
/// however many more records there are.
pub proof fn encode_failure_stays(
    records: Seq<MetadataView>,
    encoded: Seq<Result<Vec<u8>, String>>,
    n: nat,
    m: nat,
)
    requires
        n <= m,
        !(encode_upto(records, encoded, n) is Put),
    ensures
        encode_upto(records, encoded, m) == encode_upto(records, encoded, n),
    decreases m,
{
    if n < m {
        encode_failure_stays(records, encoded, n, (m - 1) as nat);
    }
}

/// What importing from the export file in `data_dir` has come to, after
/// the answers in `log`. Where no file lies at its path there is
/// nothing to do. A file that cannot be read as a catalogue, or a
/// record that cannot be encoded, fails the whole.
pub open spec fn import_verdict(data_dir: Seq<char>, log: ImportLog) -> ImportVerdict {
    let path = joined_path(data_dir, LIB_FILE_EXPORT@);
    match log.file {
        None => ImportVerdict::Ask(RequestView::Fs(FsRequestView::Inspect(path))),
        Some(facts) => if facts.kind != PathKind::File {
            ImportVerdict::Skip
        } else {
            match log.read {
                None => ImportVerdict::Ask(RequestView::ReadExport(path)),
                Some(Err(fault)) => ImportVerdict::Fail(export_error(fault)),
                Some(Ok(library)) => encode_upto(library@, log.encoded@, library@.len()),
            }
        },
    }
}

/// Whether `step`, with the store going from `before` to `after`, is
/// what `verdict` calls for: a request, a failure or nothing to do with
/// the store as it was; or every entry stored; or a fault of the store,
/// which left the store as it was if it came before the commit.
pub open spec fn import_result(
    verdict: ImportVerdict,
    step: Step<Request, Result<bool, LibraryError>>,
    before: Contents,
    after: Contents,
) -> bool {
    match verdict {
        ImportVerdict::Ask(q) => step matches Step::Need(x) && x@ == q && after == before,
        ImportVerdict::Fail(e) => step matches Step::Done(Err(x)) && x@ == e && after == before,
        ImportVerdict::Skip => step matches Step::Done(Ok(done)) && !done && after == before,
        ImportVerdict::Put(entries) => (step matches Step::Done(Ok(done)) && done && after
            == insert_all(before, entries)) || (store_fault(step) && (read_fault(step) ==> after
            == before)),
    }
}

/// What an import has come to, as it is computed.
enum ImportDecision {
    Ask(Request),
    Fail(LibraryError),
    Put(Vec<Entry>),
}

fn encode_entries(library: &Library, encoded: &Vec<Result<Vec<u8>, String>>) -> (r: ImportDecision)
    ensures
        match encode_upto(library@, encoded@, library@.len()) {
            ImportVerdict::Ask(q) => r matches ImportDecision::Ask(x) && x@ == q,
            ImportVerdict::Fail(e) => r matches ImportDecision::Fail(x) && x@ == e,
            ImportVerdict::Put(entries) => r matches ImportDecision::Put(x) && entry_views(x@)
                == entries,
            ImportVerdict::Skip => false,
        },
        r matches ImportDecision::Ask(x) ==> x is Encode,
{
    let mut entries: Vec<Entry> = Vec::new();
    let mut i: usize = 0;
    assert(entry_views(entries@) =~= Seq::<EntryView>::empty());
    assert(library@.len() == library.entries@.len());
    while i < library.entries.len()
        invariant
            i <= library.entries@.len(),
            library@.len() == library.entries@.len(),
            encode_upto(library@, encoded@, i as nat) == ImportVerdict::Put(entry_views(entries@)),
        decreases library.entries.len() - i,
    {
        if i < encoded.len() {
            match &encoded[i] {
                Ok(bytes) => {
                    let ghost before = entries@;
                    entries.push(Entry { key: library.entries[i].id.clone(), value: bytes.clone() });
                    assert(entry_views(entries@) =~= entry_views(before).push(
                        EntryView { key: library@[i as int].id, value: bytes@ },
                    ));
                },
                Err(e) => {
                    proof {
                        encode_failure_stays(library@, encoded@, (i + 1) as nat, library@.len());
                    }
                    return ImportDecision::Fail(LibraryError::SerializeError(e.clone()));
                },
            }
        } else {
            proof {
                encode_failure_stays(library@, encoded@, (i + 1) as nat, library@.len());
            }
            return ImportDecision::Ask(Request::Encode(library.entries[i].duplicate()));
        }
        i += 1;
    }
    ImportDecision::Put(entries)
}

/// Stores every record of the export file in `data_dir`, each in place
/// of the record of its id, as far as the answers in `log` allow. The
/// result says whether there was a file to import. The store is written
/// to once, at the end, with every record or with none.
pub fn lib_import(store: &mut Store, data_dir: &str, log: &ImportLog) -> (r: Step<
    Ask<Request, ImportSlot>,
    Result<bool, LibraryError>,
>)
    ensures
        import_result(import_verdict(data_dir@, *log), r.bare(), old(store)@, final(store)@),
        r matches Step::Need(ask) ==> ask.slot == import_slot(ask.request@),
{
    let path = cd_with(data_dir, LIB_FILE_EXPORT);
    match &log.file {
        None => Step::Need(
            Ask { request: Request::Fs(FsRequest::Inspect(path)), slot: ImportSlot::File },
        ),
        Some(facts) => if facts.kind != PathKind::File {
            Step::Done(Ok(false))
        } else {
            match &log.read {
                None => Step::Need(Ask { request: Request::ReadExport(path), slot: ImportSlot::Read }),
                Some(Err(fault)) => Step::Done(Err(export_fault(fault))),
                Some(Ok(library)) => match encode_entries(library, &log.encoded) {
                    ImportDecision::Ask(q) => Step::Need(Ask { request: q, slot: ImportSlot::Encoded }),
                    ImportDecision::Fail(e) => Step::Done(Err(e)),
                    ImportDecision::Put(entries) => match store.put_all(&entries) {
                        Ok(()) => Step::Done(Ok(true)),
                        Err(fault) => Step::Done(Err(LibraryError::from_fault(fault))),
                    },
                },
            }
        },
    }
}


/// The extension of a new archive, with its dot.
pub const ARCHIVE_SUFFIX: &'static str = ".7z";

/// The start of the name of a new archive whose entry has no id on its
/// platform.
pub const ANONYMOUS_PREFIX: &'static str = "ANONYMOUS-";

/// The directory in which the archives of a platform are made.
pub open spec fn archive_dir(data_dir: Seq<char>, platform: PlatformView) -> Seq<char> {
    joined_path(joined_path(data_dir, ARCHIVE_DIR_NAME@), platform.name())
}

/// The file name of a new archive: the id of the entry on its platform,
/// or where it has none or an empty one, a name made of the time stamp.
pub open spec fn archive_name(platform_id: Option<Seq<char>>, stamp: Seq<char>) -> Seq<char> {
    match platform_id {
        Some(id) => if id.len() > 0 {
            id + ARCHIVE_SUFFIX@
        } else {
            ANONYMOUS_PREFIX@ + stamp + ARCHIVE_SUFFIX@
        },
        None => ANONYMOUS_PREFIX@ + stamp + ARCHIVE_SUFFIX@,
    }
}

/// The path of a new archive.
pub open spec fn archive_path(
    data_dir: Seq<char>,
    platform: PlatformView,
    platform_id: Option<Seq<char>>,
    stamp: Seq<char>,
) -> Seq<char> {
    joined_path(archive_dir(data_dir, platform), archive_name(platform_id, stamp))
}

/// The answers gathered while making an entry from a directory.
#[derive(Debug, Clone, PartialEq, Eq)]
pub struct DelegateCreateLog {
    /// What lies at the directory of the archives of the platform.
    pub dir: Option<PathFacts>,
    /// How creating that directory ended.
    pub created: Option<Result<(), String>>,
    /// The answers gathered while packing.
    pub create: CreateLog,
    /// The new record, encoded.
    pub encoded: Option<Result<Vec<u8>, String>>,
}

impl DelegateCreateLog {
    /// The log of a making that has not begun.
    pub fn new() -> (r: DelegateCreateLog)
        ensures
            r.dir is None,
            r.created is None,
            r.create.origin is None,
            r.create.pack.tool is None,
            r.create.pack.outcome is None,
            r.create.size is None,
            r.encoded is None,
    {
        DelegateCreateLog { dir: None, created: None, create: CreateLog::new(), encoded: None }
    }
}

/// The places of a `DelegateCreateLog`.
#[derive(Clone, Copy, Debug, PartialEq, Eq, Structural)]
pub enum DelegateCreateSlot {
    Dir,
    Created,
    /// A place of the log of packing the archive.
    Create(CreateSlot),
    Encoded,
}

impl DelegateCreateSlot {
    /// The kind of answer that the place takes.
    pub open spec fn kind(self) -> AnswerKind {
        match self {
            DelegateCreateSlot::Dir => AnswerKind::Fs(ReplyKind::Facts),
            DelegateCreateSlot::Created => AnswerKind::Fs(ReplyKind::Outcome),
            DelegateCreateSlot::Create(slot) => AnswerKind::Fs(slot.kind()),
            DelegateCreateSlot::Encoded => AnswerKind::Encoded,
        }
    }
}

/// The place that the answer to the request of a making goes to.
pub open spec fn delegate_create_slot(log: DelegateCreateLog) -> DelegateCreateSlot {
    match log.dir {
        None => DelegateCreateSlot::Dir,
        Some(facts) => if facts.kind == PathKind::Missing && log.created is None {
            DelegateCreateSlot::Created
        } else {
            match create_slot(log.create) {
                Some(slot) => DelegateCreateSlot::Create(slot),
                None => DelegateCreateSlot::Encoded,
            }
        },
    }
}

impl DelegateCreateLog {
    /// Whether the place holds no answer.
    pub open spec fn missing(self, slot: DelegateCreateSlot) -> bool {
        match slot {
            DelegateCreateSlot::Dir => self.dir is None,
            DelegateCreateSlot::Created => self.created is None,
            DelegateCreateSlot::Create(slot) => self.create.missing(slot),
            DelegateCreateSlot::Encoded => self.encoded is None,
        }
    }

    /// The log with the answer in the place, where it is of the kind
    /// that the place takes.
    pub open spec fn filled(self, slot: DelegateCreateSlot, reply: Reply) -> DelegateCreateLog {
        match (slot, reply) {
            (DelegateCreateSlot::Dir, Reply::Fs(FsReply::Facts(f))) => DelegateCreateLog {
                dir: Some(f),
                ..self
            },
            (DelegateCreateSlot::Created, Reply::Fs(FsReply::Outcome(r))) => DelegateCreateLog {
                created: Some(r),
                ..self
            },
            (DelegateCreateSlot::Create(inner), Reply::Fs(other)) => DelegateCreateLog {
                create: self.create.filled(inner, other),
                ..self
            },
            (DelegateCreateSlot::Encoded, Reply::Encoded(r)) => DelegateCreateLog {
                encoded: Some(r),
                ..self
            },
            _ => self,
        }
    }

    /// Puts the answer in the place. An answer of another kind than
    /// the place takes is not put there, and the result says so.
    pub fn fill(&mut self, slot: DelegateCreateSlot, reply: Reply) -> (r: bool)
        ensures
            r == (reply.kind() == slot.kind()),
            *final(self) == old(self).filled(slot, reply),
    {
        match (slot, reply) {
            (DelegateCreateSlot::Dir, Reply::Fs(FsReply::Facts(f))) => {
                self.dir = Some(f);
                true
            },
            (DelegateCreateSlot::Created, Reply::Fs(FsReply::Outcome(r))) => {
                self.created = Some(r);
                true
            },
            (DelegateCreateSlot::Create(inner), Reply::Fs(other)) => self.create.fill(inner, other),
            (DelegateCreateSlot::Encoded, Reply::Encoded(r)) => {
                self.encoded = Some(r);
                true
            },
            _ => false,
        }
    }
}

/// What making an entry from the directory `from` has come to, before
/// the store is written to. The directory of the platform's archives is
/// created where it is missing; the directory `from` is packed into a
/// new archive there; and the record of the new entry, with the
/// identifier `id` and created at `now`, is encoded.
pub open spec fn delegate_create_verdict(
    data_dir: Seq<char>,
    id: Seq<char>,
    now: Timestamp,
    stamp: Seq<char>,
    title: Seq<char>,
    platform: PlatformView,
    platform_id: Option<Seq<char>>,
    from: Seq<char>,
    password: Option<Seq<char>>,
    log: DelegateCreateLog,
) -> AddVerdict {
    let dir = archive_dir(data_dir, platform);
    let archive = archive_path(data_dir, platform, platform_id, stamp);
    let packed = match create_verdict(from, archive, password, log.create) {
        CreateVerdict::Ask(q) => AddVerdict::Ask(RequestView::Fs(q)),
        CreateVerdict::Refuse(e) => AddVerdict::Fail(LibraryErrorView::CreateError(e)),
        CreateVerdict::Build(probe) => encode_verdict(
            created_record(id, now, title, platform, platform_id, archive, password, probe),
            log.encoded,
        ),
    };
    match log.dir {
        None => AddVerdict::Ask(RequestView::Fs(FsRequestView::Inspect(dir))),
        Some(facts) => if facts.kind == PathKind::Missing {
            match log.created {
                None => AddVerdict::Ask(RequestView::Fs(FsRequestView::CreateDirAll(dir))),
                Some(Err(e)) => AddVerdict::Fail(LibraryErrorView::FileError(e@)),
                Some(Ok(())) => packed,
            }
        } else {
            packed
        },
    }
}

fn new_archive_name(platform_id: &Option<String>, stamp: &str) -> (r: String)
    ensures
        r@ == archive_name(opt_text(*platform_id), stamp@),
{
    match platform_id {
        Some(id) => if id.as_str().unicode_len() > 0 {
            join2(id.as_str(), ARCHIVE_SUFFIX)
        } else {
            join3(ANONYMOUS_PREFIX, stamp, ARCHIVE_SUFFIX)
        },
        None => join3(ANONYMOUS_PREFIX, stamp, ARCHIVE_SUFFIX),
    }
}

/// Makes a new entry from the directory `from_path`, as far as the
/// answers in `log` allow: packs it into a new archive below `data_dir`
/// and stores the record of the entry, which has the identifier `id`
/// and is created at `now`. `stamp` is the time stamp that names the
/// archive of an entry without an id on its platform. The store is
/// written to once, at the end.
pub fn lib_delegate_create(
    store: &mut Store,
    data_dir: &str,
    id: &str,
    now: Timestamp,
    stamp: &str,
    title: &str,
    platform: &Platform,
    platform_id: &Option<String>,
    from_path: &str,
    password: &Option<String>,
    log: &DelegateCreateLog,
) -> (r: Step<Ask<Request, DelegateCreateSlot>, Result<(), LibraryError>>)
    ensures
        r matches Step::Need(ask) ==> ask.slot == delegate_create_slot(*log),
        add_result(
            delegate_create_verdict(
                data_dir@,
                id@,
                now,
                stamp@,
                title@,
                platform@,
                opt_text(*platform_id),
                from_path@,
                opt_text(*password),
                *log,
            ),
            Outcome::Give(()),
            r.bare(),
            old(store)@,
            final(store)@,
        ),
{
    let base = cd_with(data_dir, ARCHIVE_DIR_NAME);
    let dir = cd_with(base.as_str(), platform.to_text().as_str());
    match &log.dir {
        None => {
            return Step::Need(
                Ask { request: Request::Fs(FsRequest::Inspect(dir)), slot: DelegateCreateSlot::Dir },
            );
        },
        Some(facts) => if facts.kind == PathKind::Missing {
            match &log.created {
                None => {
                    return Step::Need(
                        Ask {
                            request: Request::Fs(FsRequest::CreateDirAll(dir)),
                            slot: DelegateCreateSlot::Created,
                        },
                    );
                },
                Some(Err(e)) => {
                    return Step::Done(Err(LibraryError::FileError(e.clone())));
                },
                Some(Ok(())) => {},
            }
        },
    }
    let archive = cd_with(dir.as_str(), new_archive_name(platform_id, stamp).as_str());
    match Metadata::new_on_create_archive(
        id,
        now,
        title,
        platform,
        platform_id,
        from_path,
        archive.as_str(),
        password,
        &log.create,
    ) {
        Step::Need(ask) => Step::Need(
            Ask { request: Request::Fs(ask.request), slot: DelegateCreateSlot::Create(ask.slot) },
        ),
        Step::Done(Err(e)) => Step::Done(Err(LibraryError::CreateError(e))),
        Step::Done(Ok(metadata)) => {
            let decision = encode_record(metadata, &log.encoded);
            match store_decision(store, decision) {
                Step::Need(ask) => Step::Need(
                    Ask { request: ask.request, slot: DelegateCreateSlot::Encoded },
                ),
                Step::Done(result) => Step::Done(result),
            }
        },
    }
}

/// The answers gathered while deploying a stored record.
#[derive(Debug, Clone, PartialEq, Eq)]
pub struct DelegateDeployLog {
    /// The answer gathered while getting the record.
    pub get: GetLog,
    /// The answers gathered while deploying it.
    pub deploy: DeployLog,
    /// The answers gathered while storing it again.
    pub add: AddLog,
}

impl DelegateDeployLog {
    /// The log of an operation that has not begun: no place holds an
    /// answer.
    pub fn new() -> (r: DelegateDeployLog)
        ensures
            forall|slot: DelegateDeploySlot| #[trigger] r.missing(slot),
    {
        DelegateDeployLog { get: GetLog::new(), deploy: DeployLog::new(), add: AddLog::new() }
    }
}

/// The answers gathered while deploying off a stored record.
#[derive(Debug, Clone, PartialEq, Eq)]
pub struct DelegateOffLog {
    /// The answer gathered while getting the record.
    pub get: GetLog,
    /// The answers gathered while deploying it off.
    pub off: UndeployLog,
    /// The answers gathered while storing it again.
    pub add: AddLog,
}

impl DelegateOffLog {
    /// The log of an operation that has not begun: no place holds an
    /// answer.
    pub fn new() -> (r: DelegateOffLog)
        ensures
            forall|slot: DelegateOffSlot| #[trigger] r.missing(slot),
    {
        DelegateOffLog { get: GetLog::new(), off: UndeployLog::new(), add: AddLog::new() }
    }
}

/// The places of a `DelegateDeployLog`.
#[derive(Clone, Copy, Debug, PartialEq, Eq, Structural)]
pub enum DelegateDeploySlot {
    Get(GetSlot),
    Deploy(DeploySlot),
    Add(AddSlot),
}

/// The places of a `DelegateOffLog`.
#[derive(Clone, Copy, Debug, PartialEq, Eq, Structural)]
pub enum DelegateOffSlot {
    Get(GetSlot),
    Off(UndeploySlot),
    Add(AddSlot),
}

impl DelegateDeploySlot {
    /// The kind of answer that the place takes.
    pub open spec fn kind(self) -> AnswerKind {
        match self {
            DelegateDeploySlot::Get(_) => AnswerKind::Decoded,
            DelegateDeploySlot::Deploy(slot) => AnswerKind::Fs(slot.kind()),
            DelegateDeploySlot::Add(slot) => slot.kind(),
        }
    }
}

impl DelegateOffSlot {
    /// The kind of answer that the place takes.
    pub open spec fn kind(self) -> AnswerKind {
        match self {
            DelegateOffSlot::Get(_) => AnswerKind::Decoded,
            DelegateOffSlot::Off(slot) => AnswerKind::Fs(slot.kind()),
            DelegateOffSlot::Add(slot) => slot.kind(),
        }
    }
}

impl DelegateDeployLog {
    /// The log with the answer in the place, where it is of the kind
    /// that the place takes.
    pub open spec fn filled(self, slot: DelegateDeploySlot, reply: Reply) -> DelegateDeployLog {
        match (slot, reply) {
            (DelegateDeploySlot::Get(inner), other) => DelegateDeployLog {
                get: self.get.filled(inner, other),
                ..self
            },
            (DelegateDeploySlot::Deploy(inner), Reply::Fs(other)) => DelegateDeployLog {
                deploy: self.deploy.filled(inner, other),
                ..self
            },
            (DelegateDeploySlot::Add(inner), other) => DelegateDeployLog {
                add: self.add.filled(inner, other),
                ..self
            },
            _ => self,
        }
    }

    /// Puts the answer in the place. An answer of another kind than
    /// the place takes is not put there, and the result says so.
    pub fn fill(&mut self, slot: DelegateDeploySlot, reply: Reply) -> (r: bool)
        ensures
            r == (reply.kind() == slot.kind()),
            *final(self) == old(self).filled(slot, reply),
    {
        match (slot, reply) {
            (DelegateDeploySlot::Get(inner), other) => self.get.fill(inner, other),
            (DelegateDeploySlot::Deploy(inner), Reply::Fs(other)) => self.deploy.fill(inner, other),
            (DelegateDeploySlot::Add(inner), other) => self.add.fill(inner, other),
            _ => false,
        }
    }
}

impl DelegateOffLog {
    /// The log with the answer in the place, where it is of the kind
    /// that the place takes.
    pub open spec fn filled(self, slot: DelegateOffSlot, reply: Reply) -> DelegateOffLog {
        match (slot, reply) {
            (DelegateOffSlot::Get(inner), other) => DelegateOffLog {
                get: self.get.filled(inner, other),
                ..self
            },
            (DelegateOffSlot::Off(inner), Reply::Fs(other)) => DelegateOffLog {
                off: self.off.filled(inner, other),
                ..self
            },
            (DelegateOffSlot::Add(inner), other) => DelegateOffLog {
                add: self.add.filled(inner, other),
                ..self
            },
            _ => self,
        }
    }

    /// Puts the answer in the place. An answer of another kind than
    /// the place takes is not put there, and the result says so.
    pub fn fill(&mut self, slot: DelegateOffSlot, reply: Reply) -> (r: bool)
        ensures
            r == (reply.kind() == slot.kind()),
            *final(self) == old(self).filled(slot, reply),
    {
        match (slot, reply) {
            (DelegateOffSlot::Get(inner), other) => self.get.fill(inner, other),
            (DelegateOffSlot::Off(inner), Reply::Fs(other)) => self.off.fill(inner, other),
            (DelegateOffSlot::Add(inner), other) => self.add.fill(inner, other),
            _ => false,
        }
    }
}

/// The place that the answer to the request of a step of deploying a
/// stored record goes to: that of getting the record while it is not
/// there, then that of deploying it, then that of adding it.
pub open spec fn delegate_deploy_slot(log: DelegateDeployLog, request: RequestView) -> DelegateDeploySlot {
    match log.get.decoded {
        Some(Ok(record)) => match deploy_slot(record@.archive_path, log.deploy) {
            Some(slot) => DelegateDeploySlot::Deploy(slot),
            None => DelegateDeploySlot::Add(add_slot(request)),
        },
        _ => DelegateDeploySlot::Get(GetSlot::Decoded),
    }
}

/// The place that the answer to the request of a step of deploying off
/// a stored record goes to: that of getting the record while it is not
/// there, then that of deploying it off, then that of adding it.
pub open spec fn delegate_off_slot(log: DelegateOffLog, request: RequestView) -> DelegateOffSlot {
    match log.get.decoded {
        Some(Ok(record)) => match undeploy_slot(
            record@.deployed_path,
            record@.deployed_type,
            log.off,
        ) {
            Some(slot) => DelegateOffSlot::Off(slot),
            None => DelegateOffSlot::Add(add_slot(request)),
        },
        _ => DelegateOffSlot::Get(GetSlot::Decoded),
    }
}

/// Whether `step` is what deploying the record of `id` to `path` calls
/// for, in a store that held `before`. The record is got; it is
/// deployed, and a failure of that is reported with the id; and once it
/// is deployed it is stored again.
pub open spec fn delegate_deployed(
    id: Seq<char>,
    path: Seq<char>,
    log: DelegateDeployLog,
    now: Timestamp,
    step: Step<Request, Result<(), LibraryError>>,
    before: Contents,
    after: Contents,
) -> bool {
    match get_verdict(id, lookup(before, id), log.get) {
        Outcome::Ask(q) => step matches Step::Need(x) && x@ == q && after == before,
        Outcome::Fail(e) => step matches Step::Done(Err(x)) && x@ == e && after == before,
        Outcome::Give(record) => match record.deploy_verdict(path, log.deploy) {
            Verdict::Ask(q) => step matches Step::Need(x) && x@ == RequestView::Fs(q) && after
                == before,
            Verdict::Refuse(e) => step matches Step::Done(Err(x)) && x@
                == LibraryErrorView::DeploymentError(e, id) && after == before,
            Verdict::Settle { .. } => added(
                record.after_deploy(path, log.deploy, now),
                log.add,
                now,
                Outcome::Give(()),
                step,
                before,
                after,
            ),
        },
    }
}

/// Deploys the record of `id` to `path` and stores it again, as far as
/// the answers in `log` allow. But for a fault of the store while
/// getting the record, which leaves the store as it was, the result is
/// what `delegate_deployed` says.
pub fn lib_delegate_deploy(
    store: &mut Store,
    id: &str,
    path: &str,
    log: &DelegateDeployLog,
    now: Timestamp,
) -> (r: Step<Ask<Request, DelegateDeploySlot>, Result<(), LibraryError>>)
    ensures
        (read_fault(r.bare()) && final(store)@ == old(store)@) || delegate_deployed(
            id@,
            path@,
            *log,
            now,
            r.bare(),
            old(store)@,
            final(store)@,
        ),
        r matches Step::Need(ask) ==> ask.slot == delegate_deploy_slot(*log, ask.request@),
{
    match lib_get(store, id, &log.get) {
        Step::Need(ask) => Step::Need(
            Ask { request: ask.request, slot: DelegateDeploySlot::Get(ask.slot) },
        ),
        Step::Done(Err(e)) => Step::Done(Err(e)),
        Step::Done(Ok(record)) => {
            let mut g = record;
            match g.deploy(path, &log.deploy, now) {
                Step::Need(ask) => Step::Need(
                    Ask { request: Request::Fs(ask.request), slot: DelegateDeploySlot::Deploy(ask.slot) },
                ),
                Step::Done(Err(e)) => Step::Done(
                    Err(LibraryError::DeploymentError(e, String::from_str(id))),
                ),
                Step::Done(Ok(())) => match lib_add(store, g, &log.add, now) {
                    Step::Need(ask) => Step::Need(
                        Ask { request: ask.request, slot: DelegateDeploySlot::Add(ask.slot) },
                    ),
                    Step::Done(result) => Step::Done(result),
                },
            }
        },
    }
}

/// The error with which deploying off the record of `id` ends where the
/// record was not deployed where it said.
pub open spec fn not_deployed_error(title: Seq<char>, id: Seq<char>) -> LibraryErrorView {
    LibraryErrorView::DeploymentOffError(
        MetadataErrorView::InvalidOperation(not_deployed_message(title)),
        id,
    )
}

/// Whether `step` is what deploying off the record of `id` calls for,
/// in a store that held `before`. The record is got; it is deployed
/// off, and a failure of that is reported with the id; and once its
/// deployment is forgotten it is stored again, also where the operation
/// then fails because the record was not deployed where it said.
pub open spec fn delegate_undeployed(
    id: Seq<char>,
    log: DelegateOffLog,
    now: Timestamp,
    step: Step<Request, Result<(), LibraryError>>,
    before: Contents,
    after: Contents,
) -> bool {
    match get_verdict(id, lookup(before, id), log.get) {
        Outcome::Ask(q) => step matches Step::Need(x) && x@ == q && after == before,
        Outcome::Fail(e) => step matches Step::Done(Err(x)) && x@ == e && after == before,
        Outcome::Give(record) => match record.undeploy_verdict(log.off) {
            OffVerdict::Ask(q) => step matches Step::Need(x) && x@ == RequestView::Fs(q) && after
                == before,
            OffVerdict::Refuse(e) => step matches Step::Done(Err(x)) && x@
                == LibraryErrorView::DeploymentOffError(e, id) && after == before,
            OffVerdict::Clear => added(
                record.undeployed(now),
                log.add,
                now,
                Outcome::Give(()),
                step,
                before,
                after,
            ),
            OffVerdict::Normalise => added(
                record.undeployed(now),
                log.add,
                now,
                Outcome::Fail(not_deployed_error(record.title, id)),
                step,
                before,
                after,
            ),
        },
    }
}

/// Deploys off the record of `id` and stores it again, as far as the
/// answers in `log` allow. But for a fault of the store while getting
/// the record, which leaves the store as it was, the result is what
/// `delegate_undeployed` says.
pub fn lib_delegate_deploy_off(store: &mut Store, id: &str, log: &DelegateOffLog, now: Timestamp) -> (r:
    Step<Ask<Request, DelegateOffSlot>, Result<(), LibraryError>>)
    ensures
        (read_fault(r.bare()) && final(store)@ == old(store)@) || delegate_undeployed(
            id@,
            *log,
            now,
            r.bare(),
            old(store)@,
            final(store)@,
        ),
        r matches Step::Need(ask) ==> ask.slot == delegate_off_slot(*log, ask.request@),
{
    match lib_get(store, id, &log.get) {
        Step::Need(ask) => Step::Need(
            Ask { request: ask.request, slot: DelegateOffSlot::Get(ask.slot) },
        ),
        Step::Done(Err(e)) => Step::Done(Err(e)),
        Step::Done(Ok(record)) => {
            let mut g = record;
            match g.deploy_off(&log.off, now) {
                Step::Need(ask) => Step::Need(
                    Ask { request: Request::Fs(ask.request), slot: DelegateOffSlot::Off(ask.slot) },
                ),
                Step::Done(Ok(())) => match lib_add(store, g, &log.add, now) {
                    Step::Need(ask) => Step::Need(
                        Ask { request: ask.request, slot: DelegateOffSlot::Add(ask.slot) },
                    ),
                    Step::Done(result) => Step::Done(result),
                },
                Step::Done(Err(err)) => match err {
                    MetadataError::InvalidOperation(why) => {
                        match lib_add(store, g, &log.add, now) {
                            Step::Need(ask) => Step::Need(
                                Ask { request: ask.request, slot: DelegateOffSlot::Add(ask.slot) },
                            ),
                            Step::Done(Err(e)) => Step::Done(Err(e)),
                            Step::Done(Ok(())) => Step::Done(
                                Err(
                                    LibraryError::DeploymentOffError(
                                        MetadataError::InvalidOperation(why),
                                        String::from_str(id),
                                    ),
                                ),
                            ),
                        }
                    },
                    other => Step::Done(
                        Err(LibraryError::DeploymentOffError(other, String::from_str(id))),
                    ),
                },
            }
        },
    }
}


/// Getting a record that was just added asks to decode what encoding
/// it gave, and gives what that is decoded to: the record comes back
/// as the encoding keeps it.
pub proof fn add_then_get(
    data: MetadataView,
    stored: Option<Seq<u8>>,
    log: AddLog,
    now: Timestamp,
    before: Contents,
    decoded: Metadata,
)
    requires
        add_verdict(data, stored, log, now) is Put,
    ensures
        ({
            let record = add_verdict(data, stored, log, now)->record;
            let bytes = add_verdict(data, stored, log, now)->bytes;
            let after = before.insert(record.id, bytes);
            &&& record.id == data.id
            &&& get_verdict(data.id, lookup(after, data.id), GetLog { decoded: None })
                == Outcome::<MetadataView>::Ask(RequestView::Decode(bytes))
            &&& get_verdict(
                data.id,
                lookup(after, data.id),
                GetLog { decoded: Some(Ok(decoded)) },
            ) == Outcome::Give(decoded@)
        }),
{
}

/// Getting a record that was just deleted finds none, whatever the
/// store held, and deleting a record that is not there leaves the
/// store as it was.
pub proof fn delete_then_get(before: Contents, id: Seq<char>, log: GetLog)
    ensures
        get_verdict(id, lookup(before.remove(id), id), log) == Outcome::<MetadataView>::Fail(
            LibraryErrorView::NotFound(id),
        ),
        !before.contains_key(id) ==> before.remove(id) == before,
{
    crate::store::delete_then_get(before, id, id);
}

/// An import stores each record of the export file under its id, with
/// the encoding that was given for it, where no two records have the
/// same id; and it leaves every other record of the store as it was.
pub proof fn import_stores_each_record(
    before: Contents,
    entries: Seq<EntryView>,
    id: Seq<char>,
)
    requires
        forall|i: int, j: int|
            0 <= i < j < entries.len() ==> #[trigger] entries[i].key != #[trigger] entries[j].key,
    ensures
        forall|i: int|
            0 <= i < entries.len() && #[trigger] entries[i].key == id ==> lookup(
                insert_all(before, entries),
                id,
            ) == Some(entries[i].value),
        (forall|i: int| 0 <= i < entries.len() ==> #[trigger] entries[i].key != id) ==> lookup(
            insert_all(before, entries),
            id,
        ) == lookup(before, id),
{
    crate::store::insert_all_then_get(before, entries, id);
}

/// The entries that an import stores are those of the records of the
/// export file, in their order: each under the id of its record.
pub proof fn import_keeps_ids(records: Seq<MetadataView>, encoded: Seq<Result<Vec<u8>, String>>, n: nat)
    requires
        n <= records.len(),
        encode_upto(records, encoded, n) is Put,
    ensures
        ({
            let entries = encode_upto(records, encoded, n)->Put_0;
            &&& entries.len() == n
            &&& n <= encoded.len()
            &&& forall|i: int|
                0 <= i < n ==> (#[trigger] entries[i]).key == records[i].id && encoded[i] is Ok
                    && entries[i].value == encoded[i]->Ok_0@
        }),
    decreases n,
{
    if n > 0 {
        if !(encode_upto(records, encoded, (n - 1) as nat) is Put) {
            encode_failure_stays(records, encoded, (n - 1) as nat, n);
        }
        import_keeps_ids(records, encoded, (n - 1) as nat);
    }
}


impl DelegateDeployLog {
    /// Whether the place holds no answer.
    pub open spec fn missing(self, slot: DelegateDeploySlot) -> bool {
        match slot {
            DelegateDeploySlot::Get(inner) => self.get.missing(inner),
            DelegateDeploySlot::Deploy(inner) => self.deploy.missing(inner),
            DelegateDeploySlot::Add(inner) => self.add.missing(inner),
        }
    }
}

impl DelegateOffLog {
    /// Whether the place holds no answer.
    pub open spec fn missing(self, slot: DelegateOffSlot) -> bool {
        match slot {
            DelegateOffSlot::Get(inner) => self.get.missing(inner),
            DelegateOffSlot::Off(inner) => self.off.missing(inner),
            DelegateOffSlot::Add(inner) => self.add.missing(inner),
        }
    }
}

/// Adding asks only for an answer that is missing from its place, and
/// that is of the kind that the place takes. So no answer is asked for
/// twice.
pub proof fn add_asks_for_what_is_missing(
    data: MetadataView,
    stored: Option<Seq<u8>>,
    log: AddLog,
    now: Timestamp,
)
    ensures
        add_verdict(data, stored, log, now) matches AddVerdict::Ask(q) ==> log.missing(add_slot(q))
            && add_slot(q).kind() == q.answer_kind(),
{
}

/// Making an entry asks only for an answer that is missing from its
/// place, and that is of the kind that the place takes.
pub proof fn delegate_create_asks_for_what_is_missing(
    data_dir: Seq<char>,
    id: Seq<char>,
    now: Timestamp,
    stamp: Seq<char>,
    title: Seq<char>,
    platform: PlatformView,
    platform_id: Option<Seq<char>>,
    from: Seq<char>,
    password: Option<Seq<char>>,
    log: DelegateCreateLog,
)
    ensures
        delegate_create_verdict(
            data_dir,
            id,
            now,
            stamp,
            title,
            platform,
            platform_id,
            from,
            password,
            log,
        ) matches AddVerdict::Ask(q) ==> log.missing(delegate_create_slot(log))
            && delegate_create_slot(log).kind() == q.answer_kind(),
{
    crate::metadata::create_asks_for_what_is_missing(
        from,
        archive_path(data_dir, platform, platform_id, stamp),
        password,
        log.create,
    );
}

/// Deploying a stored record asks only for an answer that is missing
/// from its place, and that is of the kind that the place takes:
/// whether the request comes from getting the record, from deploying
/// it, or from adding it.
pub proof fn delegate_deploy_asks_for_what_is_missing(
    id: Seq<char>,
    path: Seq<char>,
    stored: Option<Seq<u8>>,
    stored_again: Option<Seq<u8>>,
    log: DelegateDeployLog,
    now: Timestamp,
)
    ensures
        match get_verdict(id, stored, log.get) {
            Outcome::Ask(q) => log.missing(delegate_deploy_slot(log, q)) && delegate_deploy_slot(
                log,
                q,
            ).kind() == q.answer_kind(),
            Outcome::Fail(_) => true,
            Outcome::Give(record) => match record.deploy_verdict(path, log.deploy) {
                Verdict::Ask(q) => log.missing(delegate_deploy_slot(log, RequestView::Fs(q)))
                    && delegate_deploy_slot(log, RequestView::Fs(q)).kind() == RequestView::Fs(
                    q,
                ).answer_kind(),
                Verdict::Refuse(_) => true,
                Verdict::Settle { .. } => add_verdict(
                    record.after_deploy(path, log.deploy, now),
                    stored_again,
                    log.add,
                    now,
                ) matches AddVerdict::Ask(q) ==> log.missing(delegate_deploy_slot(log, q))
                    && delegate_deploy_slot(log, q).kind() == q.answer_kind(),
            },
        },
{
    if let Outcome::Give(record) = get_verdict(id, stored, log.get) {
        crate::metadata::deploy_asks_for_what_is_missing(
            record.title,
            record.archive_path,
            record.archive_password,
            path,
            log.deploy,
        );
    }
}

/// Deploying off a stored record asks only for an answer that is
/// missing from its place, and that is of the kind that the place
/// takes: whether the request comes from getting the record, from
/// deploying it off, or from adding it.
pub proof fn delegate_off_asks_for_what_is_missing(
    id: Seq<char>,
    stored: Option<Seq<u8>>,
    stored_again: Option<Seq<u8>>,
    log: DelegateOffLog,
    now: Timestamp,
)
    ensures
        match get_verdict(id, stored, log.get) {
            Outcome::Ask(q) => log.missing(delegate_off_slot(log, q)) && delegate_off_slot(
                log,
                q,
            ).kind() == q.answer_kind(),
            Outcome::Fail(_) => true,
            Outcome::Give(record) => match record.undeploy_verdict(log.off) {
                OffVerdict::Ask(q) => log.missing(delegate_off_slot(log, RequestView::Fs(q)))
                    && delegate_off_slot(log, RequestView::Fs(q)).kind() == RequestView::Fs(
                    q,
                ).answer_kind(),
                OffVerdict::Refuse(_) => true,
                _ => add_verdict(record.undeployed(now), stored_again, log.add, now) matches AddVerdict::Ask(
                    q,
                ) ==> log.missing(delegate_off_slot(log, q)) && delegate_off_slot(log, q).kind()
                    == q.answer_kind(),
            },
        },
{
    if let Outcome::Give(record) = get_verdict(id, stored, log.get) {
        crate::metadata::deploy_off_asks_for_what_is_missing(
            record.deployed_path,
            record.deployed_type,
            log.off,
        );
    }
}


/// The records that getting every record gives are the listed entries
/// as they were decoded, in their order.
pub proof fn collect_gives_each(entries: Seq<Entry>, decoded: Seq<Result<Metadata, String>>, n: nat)
    requires
        n <= entries.len(),
        collect_upto(entries, decoded, n) is Give,
    ensures
        ({
            let records = collect_upto(entries, decoded, n)->Give_0;
            &&& records.len() == n
            &&& n <= decoded.len()
            &&& forall|i: int|
                #![trigger records[i]]
                #![trigger decoded[i]]
                0 <= i < n ==> decoded[i] is Ok && records[i] == decoded[i]->Ok_0@
        }),
    decreases n,
{
    if n > 0 {
        if !(collect_upto(entries, decoded, (n - 1) as nat) is Give) {
            collect_failure_stays(entries, decoded, (n - 1) as nat, n);
        }
        collect_gives_each(entries, decoded, (n - 1) as nat);
    }
}

/// What `encode_upto` gives where every record up to `n` has its
/// encoding: the entries of the records with those encodings.
proof fn encode_gives_entries(
    records: Seq<MetadataView>,
    encoded: Seq<Result<Vec<u8>, String>>,
    entries: Seq<EntryView>,
    n: nat,
)
    requires
        n <= records.len(),
        n <= encoded.len(),
        n <= entries.len(),
        forall|i: int|
            #![trigger entries[i]]
            #![trigger encoded[i]]
            0 <= i < n ==> encoded[i] is Ok && entries[i] == (EntryView {
                key: records[i].id,
                value: encoded[i]->Ok_0@,
            }),
    ensures
        encode_upto(records, encoded, n) == ImportVerdict::Put(entries.take(n as int)),
    decreases n,
{
    if n > 0 {
        encode_gives_entries(records, encoded, entries, (n - 1) as nat);
        assert(entries.take(n as int) =~= entries.take(n - 1).push(entries[n - 1]));
    } else {
        assert(entries.take(0) =~= Seq::<EntryView>::empty());
    }
}

/// An export followed by an import into an empty store makes a store
/// that holds the same, where decoding and encoding keep faith: where
/// each exported record has the id that it was stored under, and is
/// encoded for the import as it was stored.
pub proof fn export_then_import_restores(
    entries: Seq<Entry>,
    contents: Contents,
    decoded: Seq<Result<Metadata, String>>,
    encoded: Seq<Result<Vec<u8>, String>>,
)
    requires
        is_listing(entries, contents),
        collect_verdict(entries, decoded) is Give,
        encoded.len() >= entries.len(),
        forall|i: int|
            0 <= i < entries.len() ==> (#[trigger] encoded[i]) is Ok && encoded[i]->Ok_0@
                == entries[i].value@,
        forall|i: int|
            0 <= i < entries.len() && i < decoded.len() ==> ((#[trigger] decoded[i]) matches Ok(m)
                ==> m@.id == entries[i].key@),
    ensures
        ({
            let records = collect_verdict(entries, decoded)->Give_0;
            &&& encode_upto(records, encoded, records.len()) matches ImportVerdict::Put(stored)
            &&& insert_all(Contents::empty(), stored) == contents
        }),
{
    let records = collect_verdict(entries, decoded)->Give_0;
    collect_gives_each(entries, decoded, entries.len());
    let views = entry_views(entries);
    assert forall|i: int|
        #![trigger views[i]]
        #![trigger encoded[i]]
        0 <= i < records.len() implies encoded[i] is Ok && views[i] == (EntryView {
        key: records[i].id,
        value: encoded[i]->Ok_0@,
    }) by {
        assert(decoded[i] is Ok);
        assert(records[i] == decoded[i]->Ok_0@);
    }
    encode_gives_entries(records, encoded, views, records.len());
    assert(views.take(records.len() as int) =~= views);
    crate::store::listing_restores(entries, contents);
}

} // verus!
