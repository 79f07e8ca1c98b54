//! Backups of the store file: a copy is made each time the store is
//! opened, and the oldest copy goes once there are four.

use vstd::prelude::*;
use crate::effect::{
    Ask, FileStamp, FsReply, FsRequest, FsRequestView, PathFacts, PathKind, Removal, RemovalView,
    ReplyKind, Step,
};
use crate::file::{cd_with, joined_path};
use crate::text::join3;
use crate::time::Timestamp;

verus! {

/// The number of backups at which the oldest goes before a new one is
/// made.
pub const BACKUP_LIMIT: usize = 4;

/// The start of the name of a backup.
pub const LIB_FILE_STEM: &'static str = "library-";

/// The end of the name of a backup.
pub const LIB_FILE_EXT: &'static str = ".redb";

/// The answers gathered while making a backup.
#[derive(Debug, Clone, PartialEq, Eq)]
pub struct BackupLog {
    /// What lies at the path of the store file.
    pub source: Option<PathFacts>,
    /// What lies at the backup directory.
    pub dir: Option<PathFacts>,
    /// How creating the backup directory ended.
    pub created: Option<Result<(), String>>,
    /// The entries of the backup directory.
    pub files: Option<Result<Vec<FileStamp>, String>>,
    /// How removing the oldest backup ended.
    pub removed: Option<Result<(), String>>,
    /// How copying the store file ended.
    pub copied: Option<Result<(), String>>,
}

impl BackupLog {
    /// The log of a backup that has not begun.
    pub fn new() -> (r: BackupLog)
        ensures
            r.source is None,
            r.dir is None,
            r.created is None,
            r.files is None,
            r.removed is None,
            r.copied is None,
    {
        BackupLog { source: None, dir: None, created: None, files: None, removed: None, copied: None }
    }
}

/// The age of an entry: when it was last modified, or the Unix epoch
/// where that could not be read.
pub open spec fn age(f: FileStamp) -> Timestamp {
    match f.modified {
        Some(t) => t,
        None => Timestamp { secs: 0, nanos: 0 },
    }
}

/// The number of regular files among the first `n` entries.
pub open spec fn count_files(files: Seq<FileStamp>, n: nat) -> nat
    decreases n,
{
    if n == 0 {
        0
    } else {
        count_files(files, (n - 1) as nat) + if files[n - 1].is_file {
            1nat
        } else {
            0nat
        }
    }
}

/// The oldest regular file among the first `n` entries: of those of the
/// least age, the one that is listed first.
pub open spec fn oldest_upto(files: Seq<FileStamp>, n: nat) -> Option<int>
    decreases n,
{
    if n == 0 {
        None
    } else {
        let before = oldest_upto(files, (n - 1) as nat);
        if !files[n - 1].is_file {
            before
        } else {
            match before {
                None => Some(n - 1),
                Some(i) => if age(files[n - 1]).before(age(files[i])) {
                    Some(n - 1)
                } else {
                    Some(i)
                },
            }
        }
    }
}

/// The backup that goes before a new one is made: the oldest, once
/// there are as many as the limit, and none before that.
pub open spec fn victim(files: Seq<FileStamp>) -> Option<int> {
    if count_files(files, files.len()) >= BACKUP_LIMIT {
        oldest_upto(files, files.len())
    } else {
        None
    }
}

/// The path of the backup that is made at the time of `stamp`.
pub open spec fn backup_path(backup_dir: Seq<char>, stamp: Seq<char>) -> Seq<char> {
    joined_path(backup_dir, LIB_FILE_STEM@ + stamp + LIB_FILE_EXT@)
}

/// Where making a backup of the store file stands after the answers in
/// `log`. Without a store file there is nothing to do. The backup
/// directory is created where it is missing. The oldest backup is
/// removed once there are as many as the limit, and the store file is
/// copied whether or not that succeeded. No failure is reported: the
/// backup ends where it cannot go on.
pub open spec fn backup_step(
    source: Seq<char>,
    backup_dir: Seq<char>,
    stamp: Seq<char>,
    log: BackupLog,
) -> Step<FsRequestView, ()> {
    let copy = match log.copied {
        None => Step::Need(
            FsRequestView::CopyFile { from: source, to: backup_path(backup_dir, stamp) },
        ),
        Some(_) => Step::Done(()),
    };
    let rotate = match log.files {
        None => Step::Need(FsRequestView::ListFiles(backup_dir)),
        Some(Err(_)) => Step::Done(()),
        Some(Ok(files)) => match victim(files@) {
            Some(i) => if log.removed is None {
                Step::Need(
                    FsRequestView::Remove(seq![RemovalView { path: files@[i].path@, recursive: false }]),
                )
            } else {
                copy
            },
            None => copy,
        },
    };
    match log.source {
        None => Step::Need(FsRequestView::Inspect(source)),
        Some(facts) => if facts.kind == PathKind::Missing {
            Step::Done(())
        } else {
            match log.dir {
                None => Step::Need(FsRequestView::Inspect(backup_dir)),
                Some(dir) => if dir.kind == PathKind::Missing {
                    match log.created {
                        None => Step::Need(FsRequestView::CreateDirAll(backup_dir)),
                        Some(Err(_)) => Step::Done(()),
                        Some(Ok(())) => rotate,
                    }
                } else {
                    rotate
                },
            }
        },
    }
}

/// The content of a step of a backup.
pub open spec fn backup_step_view(s: Step<FsRequest, ()>) -> Step<FsRequestView, ()> {
    match s {
        Step::Need(q) => Step::Need(q@),
        Step::Done(()) => Step::Done(()),
    }
}

fn age_of(f: &FileStamp) -> (r: Timestamp)
    ensures
        r == age(*f),
{
    match f.modified {
        Some(t) => t,
        None => Timestamp::epoch(),
    }
}

/// The backup that goes before a new one is made, by its place in the
/// listing.
pub fn choose_victim(files: &Vec<FileStamp>) -> (r: Option<usize>)
    ensures
        match r {
            Some(i) => victim(files@) == Some(i as int) && i < files@.len(),
            None => victim(files@) is None,
        },
{
    let mut count: usize = 0;
    let mut oldest: Option<usize> = None;
    let mut i: usize = 0;
    while i < files.len()
        invariant
            i <= files.len(),
            count == count_files(files@, i as nat),
            count <= i,
            match oldest {
                Some(k) => oldest_upto(files@, i as nat) == Some(k as int) && k < i,
                None => oldest_upto(files@, i as nat) is None,
            },
        decreases files.len() - i,
    {
        if files[i].is_file {
            count += 1;
            let newer = match oldest {
                None => true,
                Some(k) => age_of(&files[i]).is_before(&age_of(&files[k])),
            };
            if newer {
                oldest = Some(i);
            }
        }
        i += 1;
    }
    if count >= BACKUP_LIMIT {
        oldest
    } else {
        None
    }
}

fn backup_next(source_path: &str, backup_dir: &str, stamp: &str, log: &BackupLog) -> (r: Step<
    FsRequest,
    (),
>)
    ensures
        backup_step_view(r) == backup_step(source_path@, backup_dir@, stamp@, *log),
{
    match &log.source {
        None => {
            return Step::Need(FsRequest::Inspect(String::from_str(source_path)));
        },
        Some(facts) => if facts.kind == PathKind::Missing {
            return Step::Done(());
        },
    }
    match &log.dir {
        None => {
            return Step::Need(FsRequest::Inspect(String::from_str(backup_dir)));
        },
        Some(dir) => if dir.kind == PathKind::Missing {
            match &log.created {
                None => {
                    return Step::Need(FsRequest::CreateDirAll(String::from_str(backup_dir)));
                },
                Some(Err(_)) => {
                    return Step::Done(());
                },
                Some(Ok(())) => {},
            }
        },
    }
    match &log.files {
        None => {
            return Step::Need(FsRequest::ListFiles(String::from_str(backup_dir)));
        },
        Some(Err(_)) => {
            return Step::Done(());
        },
        Some(Ok(files)) => match choose_victim(files) {
            Some(i) => if log.removed.is_none() {
                let mut items: Vec<Removal> = Vec::new();
                items.push(Removal { path: files[i].path.clone(), recursive: false });
                assert(crate::effect::removals(items@) =~= seq![
                    RemovalView { path: files@[i as int].path@, recursive: false },
                ]);
                return Step::Need(FsRequest::Remove(items));
            },
            None => {},
        },
    }
    match &log.copied {
        None => Step::Need(
            FsRequest::CopyFile {
                from: String::from_str(source_path),
                to: cd_with(backup_dir, join3(LIB_FILE_STEM, stamp, LIB_FILE_EXT).as_str()),
            },
        ),
        Some(_) => Step::Done(()),
    }
}

/// The oldest regular file is a regular file, no regular file is older,
/// and none of the same age is listed before it.
pub proof fn oldest_is_oldest(files: Seq<FileStamp>, n: nat)
    requires
        n <= files.len(),
    ensures
        match oldest_upto(files, n) {
            Some(i) => {
                &&& 0 <= i < n
                &&& files[i].is_file
                &&& forall|j: int|
                    0 <= j < n && files[j].is_file ==> !age(#[trigger] files[j]).before(age(files[i]))
                &&& forall|j: int|
                    0 <= j < i && files[j].is_file ==> age(files[i]).before(age(#[trigger] files[j]))
            },
            None => count_files(files, n) == 0,
        },
    decreases n,
{
    if n > 0 {
        oldest_is_oldest(files, (n - 1) as nat);
        let before = oldest_upto(files, (n - 1) as nat);
        if files[n - 1].is_file {
            match before {
                None => {
                    assert forall|j: int| 0 <= j < n - 1 implies !files[j].is_file by {
                        no_files_counted(files, (n - 1) as nat, j);
                    }
                },
                Some(i) => {
                    let now = oldest_upto(files, n)->0;
                    assert forall|j: int| 0 <= j < n && files[j].is_file implies !age(
                        #[trigger] files[j],
                    ).before(age(files[now])) by {
                        if j < n - 1 {
                            assert(!age(files[j]).before(age(files[i])));
                        }
                    }
                    assert forall|j: int| 0 <= j < now && files[j].is_file implies age(
                        files[now],
                    ).before(age(#[trigger] files[j])) by {
                        if now == n - 1 {
                            assert(!age(files[j]).before(age(files[i])));
                        }
                    }
                },
            }
        }
    }
}

/// Where no regular file is counted among the first `n` entries, none
/// of them is one.
pub proof fn no_files_counted(files: Seq<FileStamp>, n: nat, j: int)
    requires
        n <= files.len(),
        count_files(files, n) == 0,
        0 <= j < n,
    ensures
        !files[j].is_file,
    decreases n,
{
    if j < n - 1 {
        no_files_counted(files, (n - 1) as nat, j);
    }
}

/// The paths of the backups that are left once the victim is removed
/// and the new backup is made.
pub open spec fn backups_after(files: Seq<FileStamp>, new_path: Seq<char>) -> Set<Seq<char>> {
    let kept = Set::new(
        |p: Seq<char>|
            exists|j: int|
                0 <= j < files.len() && files[j].is_file && Some(j) != victim(files)
                    && #[trigger] files[j].path@ == p,
    );
    kept.insert(new_path)
}

/// The paths of the regular files among the first `n` entries, but for
/// the entry at `skip`.
pub open spec fn paths_upto(files: Seq<FileStamp>, n: nat, skip: Option<int>) -> Set<Seq<char>>
    decreases n,
{
    if n == 0 {
        Set::empty()
    } else {
        let before = paths_upto(files, (n - 1) as nat, skip);
        if files[n - 1].is_file && Some(n - 1) != skip {
            before.insert(files[n - 1].path@)
        } else {
            before
        }
    }
}

proof fn paths_upto_counts(files: Seq<FileStamp>, n: nat, skip: Option<int>)
    requires
        n <= files.len(),
        forall|i: int, j: int|
            0 <= i < j < files.len() ==> #[trigger] files[i].path@ != #[trigger] files[j].path@,
    ensures
        paths_upto(files, n, skip).finite(),
        forall|p: Seq<char>|
            paths_upto(files, n, skip).contains(p) <==> exists|j: int|
                0 <= j < n && files[j].is_file && Some(j) != skip && #[trigger] files[j].path@ == p,
        paths_upto(files, n, skip).len() == count_files(files, n) - if skip matches Some(k) && 0
            <= k < n && files[k].is_file {
            1int
        } else {
            0int
        },
    decreases n,
{
    if n > 0 {
        paths_upto_counts(files, (n - 1) as nat, skip);
        let before = paths_upto(files, (n - 1) as nat, skip);
        if files[n - 1].is_file && Some(n - 1) != skip {
            assert(!before.contains(files[n - 1].path@));
        }
    }
}

/// A new backup beside four leaves four: the oldest of the four is gone
/// and the new one is there. In general, beside at least as many
/// backups as the limit, the new backup leaves as many as there were,
/// and beside fewer it leaves one more. This holds where no two entries
/// have the same path and the new path is none of theirs.
pub proof fn rotation_keeps_count(files: Seq<FileStamp>, new_path: Seq<char>)
    requires
        forall|i: int, j: int|
            0 <= i < j < files.len() ==> #[trigger] files[i].path@ != #[trigger] files[j].path@,
        forall|j: int| 0 <= j < files.len() ==> #[trigger] files[j].path@ != new_path,
    ensures
        backups_after(files, new_path).finite(),
        backups_after(files, new_path).contains(new_path),
        count_files(files, files.len()) >= BACKUP_LIMIT ==> {
            &&& backups_after(files, new_path).len() == count_files(files, files.len())
            &&& victim(files) matches Some(i) && !backups_after(files, new_path).contains(
                files[i].path@,
            )
        },
        count_files(files, files.len()) < BACKUP_LIMIT ==> backups_after(files, new_path).len()
            == count_files(files, files.len()) + 1,
{
    let skip = victim(files);
    paths_upto_counts(files, files.len(), skip);
    oldest_is_oldest(files, files.len());
    let kept = paths_upto(files, files.len(), skip);
    assert(backups_after(files, new_path) =~= kept.insert(new_path));
    assert(!kept.contains(new_path));
}


/// The places of a `BackupLog`.
#[derive(Clone, Copy, Debug, PartialEq, Eq, Structural)]
pub enum BackupSlot {
    Source,
    Dir,
    Created,
    Files,
    Removed,
    Copied,
}

impl BackupSlot {
    /// The kind of answer that the place takes.
    pub open spec fn kind(self) -> ReplyKind {
        match self {
            BackupSlot::Source => ReplyKind::Facts,
            BackupSlot::Dir => ReplyKind::Facts,
            BackupSlot::Created => ReplyKind::Outcome,
            BackupSlot::Files => ReplyKind::Files,
            BackupSlot::Removed => ReplyKind::Outcome,
            BackupSlot::Copied => ReplyKind::Outcome,
        }
    }
}

/// The place of the answer that a backup waits for, if it waits.
pub open spec fn backup_slot(log: BackupLog) -> Option<BackupSlot> {
    let copy = if log.copied is None {
        Some(BackupSlot::Copied)
    } else {
        None
    };
    let rotate = match log.files {
        None => Some(BackupSlot::Files),
        Some(Err(_)) => None,
        Some(Ok(files)) => if victim(files@) is Some && log.removed is None {
            Some(BackupSlot::Removed)
        } else {
            copy
        },
    };
    match log.source {
        None => Some(BackupSlot::Source),
        Some(facts) => if facts.kind == PathKind::Missing {
            None
        } else {
            match log.dir {
                None => Some(BackupSlot::Dir),
                Some(dir) => if dir.kind == PathKind::Missing {
                    match log.created {
                        None => Some(BackupSlot::Created),
                        Some(Err(_)) => None,
                        Some(Ok(())) => rotate,
                    }
                } else {
                    rotate
                },
            }
        },
    }
}

impl BackupLog {
    /// Whether the place holds no answer.
    pub open spec fn missing(self, slot: BackupSlot) -> bool {
        match slot {
            BackupSlot::Source => self.source is None,
            BackupSlot::Dir => self.dir is None,
            BackupSlot::Created => self.created is None,
            BackupSlot::Files => self.files is None,
            BackupSlot::Removed => self.removed is None,
            BackupSlot::Copied => self.copied is None,
        }
    }

    /// The log with the answer in the place, where it is of the kind
    /// that the place takes.
    pub open spec fn filled(self, slot: BackupSlot, reply: FsReply) -> BackupLog {
        match (slot, reply) {
            (BackupSlot::Source, FsReply::Facts(f)) => BackupLog { source: Some(f), ..self },
            (BackupSlot::Dir, FsReply::Facts(f)) => BackupLog { dir: Some(f), ..self },
            (BackupSlot::Created, FsReply::Outcome(r)) => BackupLog { created: Some(r), ..self },
            (BackupSlot::Files, FsReply::Files(r)) => BackupLog { files: Some(r), ..self },
            (BackupSlot::Removed, FsReply::Outcome(r)) => BackupLog { removed: Some(r), ..self },
            (BackupSlot::Copied, FsReply::Outcome(r)) => BackupLog { copied: Some(r), ..self },
            _ => self,
        }
    }

    /// Puts the answer in the place. An answer of another kind than
    /// the place takes is not put there, and the result says so.
    pub fn fill(&mut self, slot: BackupSlot, reply: FsReply) -> (r: bool)
        ensures
            r == (reply.kind() == slot.kind()),
            *final(self) == old(self).filled(slot, reply),
    {
        match (slot, reply) {
            (BackupSlot::Source, FsReply::Facts(f)) => {
                self.source = Some(f);
                true
            },
            (BackupSlot::Dir, FsReply::Facts(f)) => {
                self.dir = Some(f);
                true
            },
            (BackupSlot::Created, FsReply::Outcome(r)) => {
                self.created = Some(r);
                true
            },
            (BackupSlot::Files, FsReply::Files(r)) => {
                self.files = Some(r);
                true
            },
            (BackupSlot::Removed, FsReply::Outcome(r)) => {
                self.removed = Some(r);
                true
            },
            (BackupSlot::Copied, FsReply::Outcome(r)) => {
                self.copied = Some(r);
                true
            },
            _ => false,
        }
    }

    /// The place of the answer that the backup waits for, if it waits.
    pub fn pending(&self) -> (r: Option<BackupSlot>)
        ensures
            r == backup_slot(*self),
    {
        match &self.source {
            None => {
                return Some(BackupSlot::Source);
            },
            Some(facts) => if facts.kind == PathKind::Missing {
                return None;
            },
        }
        match &self.dir {
            None => {
                return Some(BackupSlot::Dir);
            },
            Some(dir) => if dir.kind == PathKind::Missing {
                match &self.created {
                    None => {
                        return Some(BackupSlot::Created);
                    },
                    Some(Err(_)) => {
                        return None;
                    },
                    Some(Ok(())) => {},
                }
            },
        }
        match &self.files {
            None => {
                return Some(BackupSlot::Files);
            },
            Some(Err(_)) => {
                return None;
            },
            Some(Ok(files)) => if choose_victim(files).is_some() && self.removed.is_none() {
                return Some(BackupSlot::Removed);
            },
        }
        if self.copied.is_none() {
            Some(BackupSlot::Copied)
        } else {
            None
        }
    }
}

/// A backup waits for an answer exactly while it has a request; the
/// answer is missing from its place, and is of the kind that the place
/// takes.
pub proof fn backup_asks_for_what_is_missing(
    source: Seq<char>,
    backup_dir: Seq<char>,
    stamp: Seq<char>,
    log: BackupLog,
)
    ensures
        match backup_step(source, backup_dir, stamp, log) {
            Step::Need(q) => backup_slot(log) matches Some(slot) && log.missing(slot) && slot.kind()
                == q.answer_kind(),
            Step::Done(_) => backup_slot(log) is None,
        },
{
}


/// Makes a backup of the store file at `source_path` in `backup_dir`,
/// named by the time stamp `stamp`, as far as the answers in `log`
/// allow.
pub fn backup(source_path: &str, backup_dir: &str, stamp: &str, log: &BackupLog) -> (r: Step<
    Ask<FsRequest, BackupSlot>,
    (),
>)
    ensures
        backup_step_view(r.bare()) == backup_step(source_path@, backup_dir@, stamp@, *log),
        r.slot() == backup_slot(*log),
{
    proof {
        backup_asks_for_what_is_missing(source_path@, backup_dir@, stamp@, *log);
    }
    match backup_next(source_path, backup_dir, stamp, log) {
        Step::Need(request) => Step::Need(Ask { request, slot: log.pending().unwrap() }),
        Step::Done(()) => Step::Done(()),
    }
}

} // verus!
