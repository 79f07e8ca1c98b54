//! The configuration of the application: where its data lives.

use vstd::prelude::*;
use crate::effect::{
    Ask, FsReply, FsRequest, FsRequestView, PathFacts, PathKind, ReplyKind, Step,
};
use crate::file::{cd_with, joined_path};
use crate::text::join2;

verus! {

/// The name of the data directory where none is configured.
pub const DATA_DIR_DEFAULT: &'static str = "data";

/// Why the configuration could not be had.
#[derive(Debug, Clone, PartialEq, Eq)]
pub enum ConfigError {
    /// The file system reported a failure.
    FileError(String),
    /// No source of the configuration could be read.
    LoadError,
    /// What was read is no configuration.
    ParseError(String),
    /// The configuration could not be written down.
    SerializationError(String),
    /// The configuration is held elsewhere.
    LockError,
}

/// The mathematical content of a `ConfigError`.
pub enum ConfigErrorView {
    FileError(Seq<char>),
    LoadError,
    ParseError(Seq<char>),
    SerializationError(Seq<char>),
    LockError,
}

impl View for ConfigError {
    type V = ConfigErrorView;

    open spec fn view(&self) -> ConfigErrorView {
        match *self {
            ConfigError::FileError(s) => ConfigErrorView::FileError(s@),
            ConfigError::LoadError => ConfigErrorView::LoadError,
            ConfigError::ParseError(s) => ConfigErrorView::ParseError(s@),
            ConfigError::SerializationError(s) => ConfigErrorView::SerializationError(s@),
            ConfigError::LockError => ConfigErrorView::LockError,
        }
    }
}

impl ConfigErrorView {
    /// The message that a reader is shown.
    pub open spec fn message(self) -> Seq<char> {
        match self {
            ConfigErrorView::FileError(s) => "Failed to read/write config from file: "@ + s,
            ConfigErrorView::LoadError => "Failed to load config from file or env"@,
            ConfigErrorView::ParseError(s) => "Failed to parse config: "@ + s,
            ConfigErrorView::SerializationError(s) => "Failed to serialize config: "@ + s,
            ConfigErrorView::LockError => "Failed to acquire lock"@,
        }
    }
}

impl ConfigError {
    /// The message that a reader is shown.
    pub fn to_text(&self) -> (r: String)
        ensures
            r@ == self@.message(),
    {
        match self {
            ConfigError::FileError(s) => join2("Failed to read/write config from file: ", s.as_str()),
            ConfigError::LoadError => String::from_str("Failed to load config from file or env"),
            ConfigError::ParseError(s) => join2("Failed to parse config: ", s.as_str()),
            ConfigError::SerializationError(s) => join2("Failed to serialize config: ", s.as_str()),
            ConfigError::LockError => String::from_str("Failed to acquire lock"),
        }
    }
}

/// The configuration of the application.
#[derive(Debug, Clone, PartialEq, Eq)]
pub struct AppConfig {
    data_dir: String,
}

impl View for AppConfig {
    type V = Seq<char>;

    /// The name of the data directory.
    closed spec fn view(&self) -> Seq<char> {
        self.data_dir@
    }
}

impl Default for AppConfig {
    fn default() -> (r: AppConfig)
        ensures
            r@ == DATA_DIR_DEFAULT@,
    {
        AppConfig { data_dir: String::from_str(DATA_DIR_DEFAULT) }
    }
}

/// What reading the sources of the configuration gave.
#[derive(Debug, Clone, PartialEq, Eq)]
pub enum Loaded {
    /// The name of the data directory.
    Config(String),
    /// The sources could not be read.
    Unreadable,
    /// What was read is no configuration, with the reason.
    Malformed(String),
}

/// The answers gathered while checking the data directory.
#[derive(Debug, Clone, PartialEq, Eq)]
pub struct CheckLog {
    /// What lies at the data directory.
    pub dir: Option<PathFacts>,
    /// How creating it ended.
    pub created: Option<Result<(), String>>,
}

impl CheckLog {
    /// The log of a check that has not begun.
    pub fn new() -> (r: CheckLog)
        ensures
            r.dir is None,
            r.created is None,
    {
        CheckLog { dir: None, created: None }
    }
}

/// The content of a step of checking the data directory.
pub open spec fn check_step_view(s: Step<FsRequest, Result<(), ConfigError>>) -> Step<
    FsRequestView,
    Result<(), ConfigErrorView>,
> {
    match s {
        Step::Need(r) => Step::Need(r@),
        Step::Done(Ok(())) => Step::Done(Ok(())),
        Step::Done(Err(e)) => Step::Done(Err(e@)),
    }
}

/// Where checking the data directory at `dir` stands after the answers
/// in `log`: it is created where nothing lies there.
pub open spec fn check_step(dir: Seq<char>, log: CheckLog) -> Step<
    FsRequestView,
    Result<(), ConfigErrorView>,
> {
    match log.dir {
        None => Step::Need(FsRequestView::Inspect(dir)),
        Some(facts) => if facts.kind == PathKind::Missing {
            match log.created {
                None => Step::Need(FsRequestView::CreateDirAll(dir)),
                Some(Err(e)) => Step::Done(Err(ConfigErrorView::FileError(e@))),
                Some(Ok(())) => Step::Done(Ok(())),
            }
        } else {
            Step::Done(Ok(()))
        },
    }
}

impl AppConfig {
    /// A configuration with the data directory of this name.
    pub fn with_data_dir(name: String) -> (r: AppConfig)
        ensures
            r@ == name@,
    {
        AppConfig { data_dir: name }
    }

    /// The name of the data directory.
    pub fn data_dir_name(&self) -> (r: String)
        ensures
            r@ == self@,
    {
        self.data_dir.clone()
    }

    /// The data directory, below the working directory `base`.
    pub fn data_dir(&self, base: &str) -> (r: String)
        ensures
            r@ == joined_path(base@, self@),
    {
        cd_with(base, self.data_dir.as_str())
    }

    /// Sees to it that the data directory exists below the working
    /// directory `base`, as far as the answers in `log` allow.
    pub fn check(&self, base: &str, log: &CheckLog) -> (r: Step<
        Ask<FsRequest, CheckSlot>,
        Result<(), ConfigError>,
    >)
        ensures
            check_step_view(r.bare()) == check_step(joined_path(base@, self@), *log),
            r.slot() == check_slot(*log),
    {
        let dir = self.data_dir(base);
        match &log.dir {
            None => Step::Need(Ask { request: FsRequest::Inspect(dir), slot: CheckSlot::Dir }),
            Some(facts) => if facts.kind == PathKind::Missing {
                match &log.created {
                    None => Step::Need(
                        Ask { request: FsRequest::CreateDirAll(dir), slot: CheckSlot::Created },
                    ),
                    Some(Err(e)) => Step::Done(Err(ConfigError::FileError(e.clone()))),
                    Some(Ok(())) => Step::Done(Ok(())),
                }
            } else {
                Step::Done(Ok(()))
            },
        }
    }
}

/// The configuration that reading its sources gave, or why there is
/// none.
pub fn load(loaded: Loaded) -> (r: Result<AppConfig, ConfigError>)
    ensures
        match loaded {
            Loaded::Config(name) => r matches Ok(c) && c@ == name@,
            Loaded::Unreadable => r matches Err(e) && e@ == ConfigErrorView::LoadError,
            Loaded::Malformed(why) => r matches Err(e) && e@ == ConfigErrorView::ParseError(why@),
        },
{
    match loaded {
        Loaded::Config(name) => Ok(AppConfig::with_data_dir(name)),
        Loaded::Unreadable => Err(ConfigError::LoadError),
        Loaded::Malformed(why) => Err(ConfigError::ParseError(why)),
    }
}

/// Puts what was read anew in the place of the configuration. Where
/// nothing could be read, the configuration stays as it is and the
/// reason is the result.
pub fn reload(config: &mut AppConfig, loaded: Loaded) -> (r: Result<(), ConfigError>)
    ensures
        match loaded {
            Loaded::Config(name) => r is Ok && final(config)@ == name@,
            Loaded::Unreadable => r matches Err(e) && e@ == ConfigErrorView::LoadError && final(config)@ == old(config)@,
            Loaded::Malformed(why) => r matches Err(e) && e@ == ConfigErrorView::ParseError(why@)
                && final(config)@ == old(config)@,
        },
{
    match load(loaded) {
        Ok(new_config) => {
            *config = new_config;
            Ok(())
        },
        Err(e) => Err(e),
    }
}

/// The configuration, to read.
pub fn get(config: &AppConfig) -> (r: Result<&AppConfig, ConfigError>)
    ensures
        r matches Ok(c) && c@ == config@,
{
    Ok(config)
}

/// A copy of the configuration.
pub fn get_clone(config: &AppConfig) -> (r: Result<AppConfig, ConfigError>)
    ensures
        r matches Ok(c) && c@ == config@,
{
    Ok(AppConfig { data_dir: config.data_dir.clone() })
}

/// The name of the configured data directory.
pub fn get_data_dir_name(config: &AppConfig) -> (r: Result<String, ConfigError>)
    ensures
        r matches Ok(name) && name@ == config@,
{
    Ok(config.data_dir_name())
}

/// The configured data directory, below the working directory `base`.
pub fn get_data_dir(config: &AppConfig, base: &str) -> (r: Result<String, ConfigError>)
    ensures
        r matches Ok(dir) && dir@ == joined_path(base@, config@),
{
    Ok(config.data_dir(base))
}


/// The places of a `CheckLog`.
#[derive(Clone, Copy, Debug, PartialEq, Eq, Structural)]
pub enum CheckSlot {
    Dir,
    Created,
}

impl CheckSlot {
    /// The kind of answer that the place takes.
    pub open spec fn kind(self) -> ReplyKind {
        match self {
            CheckSlot::Dir => ReplyKind::Facts,
            CheckSlot::Created => ReplyKind::Outcome,
        }
    }
}

/// The place of the answer that checking the data directory waits for,
/// if it waits.
pub open spec fn check_slot(log: CheckLog) -> Option<CheckSlot> {
    match log.dir {
        None => Some(CheckSlot::Dir),
        Some(facts) => if facts.kind == PathKind::Missing && log.created is None {
            Some(CheckSlot::Created)
        } else {
            None
        },
    }
}

impl CheckLog {
    /// Whether the place holds no answer.
    pub open spec fn missing(self, slot: CheckSlot) -> bool {
        match slot {
            CheckSlot::Dir => self.dir is None,
            CheckSlot::Created => self.created is None,
        }
    }

    /// The log with the answer in the place, where it is of the kind
    /// that the place takes.
    pub open spec fn filled(self, slot: CheckSlot, reply: FsReply) -> CheckLog {
        match (slot, reply) {
            (CheckSlot::Dir, FsReply::Facts(f)) => CheckLog { dir: Some(f), ..self },
            (CheckSlot::Created, FsReply::Outcome(r)) => CheckLog { created: Some(r), ..self },
            _ => self,
        }
    }

    /// Puts the answer in the place. An answer of another kind than
    /// the place takes is not put there, and the result says so.
    pub fn fill(&mut self, slot: CheckSlot, reply: FsReply) -> (r: bool)
        ensures
            r == (reply.kind() == slot.kind()),
            *final(self) == old(self).filled(slot, reply),
    {
        match (slot, reply) {
            (CheckSlot::Dir, FsReply::Facts(f)) => {
                self.dir = Some(f);
                true
            },
            (CheckSlot::Created, FsReply::Outcome(r)) => {
                self.created = Some(r);
                true
            },
            _ => false,
        }
    }

    /// The place of the answer that the check waits for, if it waits.
    pub fn pending(&self) -> (r: Option<CheckSlot>)
        ensures
            r == check_slot(*self),
    {
        match &self.dir {
            None => Some(CheckSlot::Dir),
            Some(facts) => if facts.kind == PathKind::Missing && self.created.is_none() {
                Some(CheckSlot::Created)
            } else {
                None
            },
        }
    }
}

/// Checking the data directory waits for an answer exactly while it has
/// a request; the answer is missing from its place, and is of the kind
/// that the place takes.
pub proof fn check_asks_for_what_is_missing(dir: Seq<char>, log: CheckLog)
    ensures
        match check_step(dir, log) {
            Step::Need(q) => check_slot(log) matches Some(slot) && log.missing(slot) && slot.kind()
                == q.answer_kind(),
            Step::Done(_) => check_slot(log) is None,
        },
{
}

} // verus!
