//! A catalogue of archived titles: the record of each entry, the life
//! cycle of its deployment, and the transactional store that keeps the
//! records.
//!
//! The catalogue decides and the caller acts. An operation that needs
//! the file system, an outside tool or the encoding of a record returns
//! a request; the caller carries it out, puts the answer in the place of
//! the operation's log that the request names, and calls the operation
//! again with the same arguments. The operation is a function of its
//! arguments and its log, and it changes a record or the store only when
//! it ends.
//!
//! - `metadata`: the record and its life cycle: measuring, deploying,
//!   deploying off, packing a new archive.
//! - `library`: the operations on the stored records.
//! - `store`: the storage engine.
//! - `backup`: the rotation of the backups of the store file.
//! - `flate`: packing and unpacking 7z archives, and zip entries.
//! - `effect`: the requests to the file system and their answers.
//! - `config`, `file`: where the data lives.
//! - `unit`: the record of a game, with its builder.
//! - `bridge`: platforms as a caller names them.
//! - `text`, `time`: text and instants.

pub mod backup;
pub mod bridge;
pub mod config;
pub mod effect;
pub mod file;
pub mod flate;
pub mod library;
pub mod metadata;
pub mod store;
pub mod text;
pub mod time;
pub mod unit;
