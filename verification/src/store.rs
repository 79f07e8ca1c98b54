//! The persistent key-value engine behind the catalogue: one table of
//! encoded records, keyed by record id.
//!
//! Every operation is one transaction of the engine. A write is visible
//! as a whole once its transaction is committed, and not at all when the
//! transaction ends any other way.

use redb::ReadableTable;
use vstd::prelude::*;

verus! {

/// The name of the table that holds the records.
pub const LIB_TABLE: &'static str = "LIBRARY";

/// The key that the warm-up transaction looks for.
pub const FRESH_KEY: &'static str = "fresh!";

/// A fault reported by the storage engine, by the step that reported it.
#[derive(Debug, Clone, PartialEq, Eq)]
pub enum StoreFault {
    /// The database could not be opened.
    Open(String),
    /// A transaction could not be started.
    Transaction(String),
    /// The table could not be opened.
    Table(String),
    /// A read or write inside the transaction failed.
    Storage(String),
    /// The transaction could not be committed.
    Commit(String),
}

impl StoreFault {
    /// Whether the fault came before anything was committed.
    pub open spec fn before_commit(self) -> bool {
        self is Transaction || self is Table || self is Storage
    }

    /// Whether the fault came while a transaction ran or was committed.
    pub open spec fn in_transaction(self) -> bool {
        self.before_commit() || self is Commit
    }
}

/// One stored pair: the id of a record and its encoding.
#[derive(Debug, Clone, PartialEq, Eq)]
pub struct Entry {
    pub key: String,
    pub value: Vec<u8>,
}

/// What a table holds: encodings by id.
pub type Contents = Map<Seq<char>, Seq<u8>>;

/// What is stored under `key`, if anything.
pub open spec fn lookup(contents: Contents, key: Seq<char>) -> Option<Seq<u8>> {
    if contents.contains_key(key) {
        Some(contents[key])
    } else {
        None
    }
}

/// The bytes of an optional encoding.
pub open spec fn opt_bytes(o: Option<Vec<u8>>) -> Option<Seq<u8>> {
    match o {
        Some(v) => Some(v@),
        None => None,
    }
}

/// Whether `entries` lists `contents`: each entry is stored, no key
/// comes twice, and every stored key is listed.
pub open spec fn is_listing(entries: Seq<Entry>, contents: Contents) -> bool {
    &&& forall|i: int|
        0 <= i < entries.len() ==> contents.contains_key(#[trigger] entries[i].key@)
            && contents[entries[i].key@] == entries[i].value@
    &&& forall|i: int, j: int|
        0 <= i < j < entries.len() ==> #[trigger] entries[i].key@ != #[trigger] entries[j].key@
    &&& forall|k: Seq<char>|
        contents.contains_key(k) ==> exists|i: int|
            0 <= i < entries.len() && #[trigger] entries[i].key@ == k
}

/// The mathematical content of an `Entry`.
pub struct EntryView {
    pub key: Seq<char>,
    pub value: Seq<u8>,
}

impl View for Entry {
    type V = EntryView;

    open spec fn view(&self) -> EntryView {
        EntryView { key: self.key@, value: self.value@ }
    }
}

/// The content of each entry of a list.
pub open spec fn entry_views(entries: Seq<Entry>) -> Seq<EntryView> {
    entries.map_values(|e: Entry| e@)
}

/// The contents after each entry was written in turn, a later entry
/// replacing an earlier one of the same key.
pub open spec fn insert_all(contents: Contents, entries: Seq<EntryView>) -> Contents
    decreases entries.len(),
{
    if entries.len() == 0 {
        contents
    } else {
        insert_all(contents, entries.drop_last()).insert(entries.last().key, entries.last().value)
    }
}

/// `redb::Database`: the handle of an open database, carried as it is
/// and never looked into.
#[verifier::external_type_specification]
#[verifier::external_body]
pub struct ExDatabase(redb::Database);

/// What the table `LIB_TABLE` of a database holds, as a committed
/// transaction left it. A database without that table holds nothing.
pub uninterp spec fn table_contents(db: redb::Database) -> Contents;

/// Whether a committed transaction has made the table `LIB_TABLE` of a
/// database. A write transaction makes the table when it opens it; a
/// read transaction cannot open a table that was not made.
pub uninterp spec fn table_made(db: redb::Database) -> bool;

/// `redb::Database::create`: opens the database file at `path`, or
/// makes a new one where there is none. Nothing is claimed of what it
/// holds.
#[verifier::external_body]
fn db_create(path: &str) -> (r: Result<redb::Database, StoreFault>)
    ensures
        r matches Err(e) ==> e is Open,
{
    redb::Database::create(path).map_err(|e| StoreFault::Open(e.to_string()))
}

/// `redb::Builder::create_with_backend` on a new
/// `redb::backends::InMemoryBackend`: a database that lives in memory,
/// holds nothing and has no table yet.
#[verifier::external_body]
fn db_in_memory() -> (r: Result<redb::Database, StoreFault>)
    ensures
        r matches Ok(db) ==> table_contents(db) == Contents::empty() && !table_made(db),
        r matches Err(e) ==> e is Open,
{
    redb::Database::builder()
        .create_with_backend(redb::backends::InMemoryBackend::new())
        .map_err(|e| StoreFault::Open(e.to_string()))
}

/// `Database::begin_read`, `ReadTransaction::open_table` and
/// `ReadOnlyTable::get`: what the table holds under `key`. A table that
/// was not made cannot be opened for reading, which is a fault.
#[verifier::external_body]
fn db_get(db: &redb::Database, table: &str, key: &str) -> (r: Result<Option<Vec<u8>>, StoreFault>)
    requires
        table@ == LIB_TABLE@,
    ensures
        r matches Ok(found) ==> table_made(*db) && opt_bytes(found) == lookup(
            table_contents(*db),
            key@,
        ),
        r matches Err(e) ==> e.before_commit(),
{
    let txn = db.begin_read().map_err(|e| StoreFault::Transaction(e.to_string()))?;
    let t = txn
        .open_table(redb::TableDefinition::<&str, Vec<u8>>::new(table))
        .map_err(|e| StoreFault::Table(e.to_string()))?;
    let found = t.get(key).map_err(|e| StoreFault::Storage(e.to_string()))?;
    Ok(found.map(|guard| guard.value()))
}

/// `Database::begin_read`, `ReadTransaction::open_table` and
/// `ReadableTable::iter`: every pair that the table holds, each once.
/// A pair that cannot be read is a fault, and nothing is handed out; so
/// is a table that was not made.
#[verifier::external_body]
fn db_entries(db: &redb::Database, table: &str) -> (r: Result<Vec<Entry>, StoreFault>)
    requires
        table@ == LIB_TABLE@,
    ensures
        r matches Ok(entries) ==> table_made(*db) && is_listing(entries@, table_contents(*db)),
        r matches Err(e) ==> e.before_commit(),
{
    let txn = db.begin_read().map_err(|e| StoreFault::Transaction(e.to_string()))?;
    let t = txn
        .open_table(redb::TableDefinition::<&str, Vec<u8>>::new(table))
        .map_err(|e| StoreFault::Table(e.to_string()))?;
    let pairs = t.iter().map_err(|e| StoreFault::Storage(e.to_string()))?;
    pairs
        .map(|pair| match pair {
            Ok((k, v)) => Ok(Entry { key: k.value().to_string(), value: v.value() }),
            Err(e) => Err(StoreFault::Storage(e.to_string())),
        })
        .collect()
}

/// `Database::begin_write`, `WriteTransaction::open_table`,
/// `Table::insert` and `WriteTransaction::commit`, as one transaction.
/// When it succeeds the table holds `value` under `key` and is otherwise
/// as before. A fault before the commit leaves the table as it was. The
/// transaction makes the table where there was none.
#[verifier::external_body]
fn db_put(db: &mut redb::Database, table: &str, key: &str, value: Vec<u8>) -> (r: Result<
    (),
    StoreFault,
>)
    requires
        table@ == LIB_TABLE@,
    ensures
        r is Ok ==> table_contents(*final(db)) == table_contents(*old(db)).insert(key@, value@),
        r matches Err(e) ==> e.in_transaction() && (e.before_commit() ==> table_contents(*final(db))
            == table_contents(*old(db))),
        r is Ok ==> table_made(*final(db)),
        table_made(*old(db)) ==> table_made(*final(db)),
{
    let txn = db.begin_write().map_err(|e| StoreFault::Transaction(e.to_string()))?;
    {
        let mut t = txn
            .open_table(redb::TableDefinition::<&str, Vec<u8>>::new(table))
            .map_err(|e| StoreFault::Table(e.to_string()))?;
        t.insert(key, value).map_err(|e| StoreFault::Storage(e.to_string()))?;
    }
    txn.commit().map_err(|e| StoreFault::Commit(e.to_string()))
}

/// `Database::begin_write`, `WriteTransaction::open_table`, one
/// `Table::insert` for each entry in turn, and
/// `WriteTransaction::commit`, as one transaction. When it succeeds the
/// table holds every entry, a later one replacing an earlier one of the
/// same key, and is otherwise as before. A fault before the commit
/// leaves the table as it was. The transaction makes the table where
/// there was none.
#[verifier::external_body]
fn db_put_all(db: &mut redb::Database, table: &str, entries: &Vec<Entry>) -> (r: Result<
    (),
    StoreFault,
>)
    requires
        table@ == LIB_TABLE@,
    ensures
        r is Ok ==> table_contents(*final(db)) == insert_all(table_contents(*old(db)), entry_views(entries@)),
        r matches Err(e) ==> e.in_transaction() && (e.before_commit() ==> table_contents(*final(db))
            == table_contents(*old(db))),
        r is Ok ==> table_made(*final(db)),
        table_made(*old(db)) ==> table_made(*final(db)),
{
    let txn = db.begin_write().map_err(|e| StoreFault::Transaction(e.to_string()))?;
    {
        let mut t = txn
            .open_table(redb::TableDefinition::<&str, Vec<u8>>::new(table))
            .map_err(|e| StoreFault::Table(e.to_string()))?;
        for entry in entries {
            t.insert(entry.key.as_str(), &entry.value)
                .map_err(|e| StoreFault::Storage(e.to_string()))?;
        }
    }
    txn.commit().map_err(|e| StoreFault::Commit(e.to_string()))
}

/// `Database::begin_write`, `WriteTransaction::open_table`,
/// `Table::remove` and `WriteTransaction::commit`, as one transaction.
/// When it succeeds the table holds nothing under `key` and is otherwise
/// as before. A fault before the commit leaves the table as it was. The
/// transaction makes the table where there was none.
#[verifier::external_body]
fn db_remove(db: &mut redb::Database, table: &str, key: &str) -> (r: Result<(), StoreFault>)
    requires
        table@ == LIB_TABLE@,
    ensures
        r is Ok ==> table_contents(*final(db)) == table_contents(*old(db)).remove(key@),
        r matches Err(e) ==> e.in_transaction() && (e.before_commit() ==> table_contents(*final(db))
            == table_contents(*old(db))),
        r is Ok ==> table_made(*final(db)),
        table_made(*old(db)) ==> table_made(*final(db)),
{
    let txn = db.begin_write().map_err(|e| StoreFault::Transaction(e.to_string()))?;
    {
        let mut t = txn
            .open_table(redb::TableDefinition::<&str, Vec<u8>>::new(table))
            .map_err(|e| StoreFault::Table(e.to_string()))?;
        t.remove(key).map_err(|e| StoreFault::Storage(e.to_string()))?;
    }
    txn.commit().map_err(|e| StoreFault::Commit(e.to_string()))
}

/// `Database::begin_write`, `WriteTransaction::open_table`,
/// `Table::get` and `WriteTransaction::commit`, as one transaction that
/// writes no pair. What the table holds is as before. When it succeeds
/// the table is made, where there was none; a table that was made stays.
#[verifier::external_body]
fn db_touch(db: &mut redb::Database, table: &str, key: &str) -> (r: Result<(), StoreFault>)
    requires
        table@ == LIB_TABLE@,
    ensures
        table_contents(*final(db)) == table_contents(*old(db)),
        r matches Err(e) ==> e.in_transaction(),
        r is Ok ==> table_made(*final(db)),
        table_made(*old(db)) ==> table_made(*final(db)),
{
    let txn = db.begin_write().map_err(|e| StoreFault::Transaction(e.to_string()))?;
    {
        let t = txn
            .open_table(redb::TableDefinition::<&str, Vec<u8>>::new(table))
            .map_err(|e| StoreFault::Table(e.to_string()))?;
        t.get(key).map_err(|e| StoreFault::Storage(e.to_string()))?;
    }
    txn.commit().map_err(|e| StoreFault::Commit(e.to_string()))
}

/// The catalogue's store.
pub struct Store {
    db: redb::Database,
}

impl View for Store {
    type V = Contents;

    closed spec fn view(&self) -> Contents {
        table_contents(self.db)
    }
}

impl Store {
    /// Whether the store has its table: a transaction that was
    /// committed has made it. Nothing can be read from a store without
    /// its table.
    pub closed spec fn has_table(&self) -> bool {
        table_made(self.db)
    }

    /// Opens the store in the file at `path`, or makes a new one where
    /// there is none.
    pub fn open(path: &str) -> (r: Result<Store, StoreFault>)
        ensures
            r matches Err(e) ==> e is Open,
    {
        match db_create(path) {
            Ok(db) => Ok(Store { db }),
            Err(e) => Err(e),
        }
    }

    /// A store that lives in memory, holds nothing and has no table
    /// yet.
    pub fn in_memory() -> (r: Result<Store, StoreFault>)
        ensures
            r matches Ok(store) ==> store@ == Contents::empty() && !store.has_table(),
            r matches Err(e) ==> e is Open,
    {
        match db_in_memory() {
            Ok(db) => Ok(Store { db }),
            Err(e) => Err(e),
        }
    }

    /// What is stored under `key`, if anything.
    pub fn get(&self, key: &str) -> (r: Result<Option<Vec<u8>>, StoreFault>)
        ensures
            r matches Ok(found) ==> self.has_table() && opt_bytes(found) == lookup(self@, key@),
            r matches Err(e) ==> e.before_commit(),
    {
        db_get(&self.db, LIB_TABLE, key)
    }

    /// Every stored pair, each once.
    pub fn get_all(&self) -> (r: Result<Vec<Entry>, StoreFault>)
        ensures
            r matches Ok(entries) ==> self.has_table() && is_listing(entries@, self@),
            r matches Err(e) ==> e.before_commit(),
    {
        db_entries(&self.db, LIB_TABLE)
    }

    /// Stores `value` under `key`, in place of what was there.
    pub fn put(&mut self, key: &str, value: Vec<u8>) -> (r: Result<(), StoreFault>)
        ensures
            r is Ok ==> final(self)@ == old(self)@.insert(key@, value@),
            r matches Err(e) ==> e.in_transaction() && (e.before_commit() ==> final(self)@ == old(self)@),
            r is Ok ==> final(self).has_table(),
            old(self).has_table() ==> final(self).has_table(),
    {
        db_put(&mut self.db, LIB_TABLE, key, value)
    }

    /// Stores every entry, all of them or none.
    pub fn put_all(&mut self, entries: &Vec<Entry>) -> (r: Result<(), StoreFault>)
        ensures
            r is Ok ==> final(self)@ == insert_all(old(self)@, entry_views(entries@)),
            r matches Err(e) ==> e.in_transaction() && (e.before_commit() ==> final(self)@ == old(self)@),
            r is Ok ==> final(self).has_table(),
            old(self).has_table() ==> final(self).has_table(),
    {
        db_put_all(&mut self.db, LIB_TABLE, entries)
    }

    /// Removes what is stored under `key`, if anything.
    pub fn delete(&mut self, key: &str) -> (r: Result<(), StoreFault>)
        ensures
            r is Ok ==> final(self)@ == old(self)@.remove(key@),
            r matches Err(e) ==> e.in_transaction() && (e.before_commit() ==> final(self)@ == old(self)@),
            r is Ok ==> final(self).has_table(),
            old(self).has_table() ==> final(self).has_table(),
    {
        db_remove(&mut self.db, LIB_TABLE, key)
    }

    /// Runs a transaction that writes nothing, so that a fault of the
    /// engine shows now and not at the first real use. The store holds
    /// what it held. When the transaction succeeds the store has its
    /// table, so that it can be read from; a store that had its table
    /// keeps it.
    pub fn warm_up(&mut self) -> (r: Result<(), StoreFault>)
        ensures
            final(self)@ == old(self)@,
            r matches Err(e) ==> e.in_transaction(),
            r is Ok ==> final(self).has_table(),
            old(self).has_table() ==> final(self).has_table(),
    {
        db_touch(&mut self.db, LIB_TABLE, FRESH_KEY)
    }
}

/// What was put under a key is what is found there, and nothing else
/// changed.
pub proof fn put_then_get(contents: Contents, key: Seq<char>, value: Seq<u8>, other: Seq<char>)
    ensures
        lookup(contents.insert(key, value), key) == Some(value),
        other != key ==> lookup(contents.insert(key, value), other) == lookup(contents, other),
{
}

/// Nothing is found under a key that was deleted, nothing else changed,
/// and deleting a key that is not there changes nothing.
pub proof fn delete_then_get(contents: Contents, key: Seq<char>, other: Seq<char>)
    ensures
        lookup(contents.remove(key), key) is None,
        other != key ==> lookup(contents.remove(key), other) == lookup(contents, other),
        !contents.contains_key(key) ==> contents.remove(key) == contents,
{
    if !contents.contains_key(key) {
        assert(contents.remove(key) =~= contents);
    }
}


/// After entries of different keys were written, each is found under
/// its key, and what lies under any other key is as before.
pub proof fn insert_all_then_get(contents: Contents, entries: Seq<EntryView>, key: Seq<char>)
    requires
        forall|i: int, j: int|
            0 <= i < j < entries.len() ==> #[trigger] entries[i].key != #[trigger] entries[j].key,
    ensures
        forall|i: int|
            0 <= i < entries.len() && #[trigger] entries[i].key == key ==> lookup(
                insert_all(contents, entries),
                key,
            ) == Some(entries[i].value),
        (forall|i: int| 0 <= i < entries.len() ==> #[trigger] entries[i].key != key) ==> lookup(
            insert_all(contents, entries),
            key,
        ) == lookup(contents, key),
    decreases entries.len(),
{
    if entries.len() > 0 {
        let front = entries.drop_last();
        insert_all_then_get(contents, front, key);
        assert forall|i: int| 0 <= i < entries.len() && #[trigger] entries[i].key == key implies lookup(
            insert_all(contents, entries),
            key,
        ) == Some(entries[i].value) by {
            if i < entries.len() - 1 {
                assert(front[i].key == key);
                assert(entries[i].key != entries[entries.len() - 1].key);
            }
        }
        if forall|i: int| 0 <= i < entries.len() ==> #[trigger] entries[i].key != key {
            assert forall|i: int| 0 <= i < front.len() implies #[trigger] front[i].key != key by {
                assert(entries[i].key != key);
            }
            assert(entries[entries.len() - 1].key != key);
        }
    }
}

/// Writing a listing of a store into an empty store makes a store that
/// holds the same.
pub proof fn listing_restores(entries: Seq<Entry>, contents: Contents)
    requires
        is_listing(entries, contents),
    ensures
        insert_all(Contents::empty(), entry_views(entries)) == contents,
{
    let views = entry_views(entries);
    let restored = insert_all(Contents::empty(), views);
    assert forall|i: int, j: int| 0 <= i < j < views.len() implies #[trigger] views[i].key
        != #[trigger] views[j].key by {
        assert(entries[i].key@ != entries[j].key@);
    }
    assert forall|k: Seq<char>| lookup(restored, k) == lookup(contents, k) by {
        insert_all_then_get(Contents::empty(), views, k);
        if contents.contains_key(k) {
            let i = choose|i: int| 0 <= i < entries.len() && #[trigger] entries[i].key@ == k;
            assert(views[i].key == k);
            assert(contents[entries[i].key@] == entries[i].value@);
        } else {
            assert forall|i: int| 0 <= i < views.len() implies #[trigger] views[i].key != k by {
                assert(contents.contains_key(entries[i].key@));
            }
        }
    }
    assert forall|k: Seq<char>| restored.contains_key(k) == contents.contains_key(k) by {
        assert(lookup(restored, k) == lookup(contents, k));
    }
    assert forall|k: Seq<char>| restored.contains_key(k) implies restored[k] == contents[k] by {
        assert(lookup(restored, k) == lookup(contents, k));
    }
    assert(restored =~= contents);
}

} // verus!
