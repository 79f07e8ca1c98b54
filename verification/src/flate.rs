//! Packing a directory into a 7z archive and unpacking one: which way it
//! is done, and with which command.
//!
//! The `7z` program is used where the host has it; otherwise the work is
//! done in process.

use vstd::prelude::*;
use crate::effect::{
    Ask, FsReply, FsRequest, FsRequestView, PathFacts, PathKind, ReplyKind, Step, ToolCommand,
    ToolCommandView,
};
use crate::text::{copy_opt, decimal, decimal_text, join2, opt_text, texts};

verus! {

/// The compression level that is used where none is asked for.
pub const DEFAULT_LEVEL: u32 = 5;

/// The answers gathered while packing.
#[derive(Clone, Debug, PartialEq, Eq)]
pub struct PackLog {
    /// Whether the `7z` program answered the probe.
    pub tool: Option<bool>,
    /// How the packing ended.
    pub outcome: Option<Result<(), String>>,
}

/// The answers gathered while unpacking.
#[derive(Clone, Debug, PartialEq, Eq)]
pub struct UnpackLog {
    /// Whether the `7z` program answered the probe.
    pub tool: Option<bool>,
    /// What lies at the output directory.
    pub dest: Option<PathFacts>,
    /// How creating the output directory ended.
    pub created: Option<Result<(), String>>,
    /// How the unpacking ended.
    pub outcome: Option<Result<(), String>>,
}

impl PackLog {
    /// The log of a packing that has not begun.
    pub fn new() -> (r: PackLog)
        ensures
            r.tool is None,
            r.outcome is None,
    {
        PackLog { tool: None, outcome: None }
    }
}

impl UnpackLog {
    /// The log of an unpacking that has not begun.
    pub fn new() -> (r: UnpackLog)
        ensures
            r.tool is None,
            r.dest is None,
            r.created is None,
            r.outcome is None,
    {
        UnpackLog { tool: None, dest: None, created: None, outcome: None }
    }
}

/// The places of a `PackLog`.
#[derive(Clone, Copy, Debug, PartialEq, Eq, Structural)]
pub enum PackSlot {
    Tool,
    Outcome,
}

/// The places of an `UnpackLog`.
#[derive(Clone, Copy, Debug, PartialEq, Eq, Structural)]
pub enum UnpackSlot {
    Tool,
    Dest,
    Created,
    Outcome,
}

impl PackSlot {
    /// The kind of answer that the place takes.
    pub open spec fn kind(self) -> ReplyKind {
        match self {
            PackSlot::Tool => ReplyKind::Tool,
            PackSlot::Outcome => ReplyKind::Outcome,
        }
    }
}

impl UnpackSlot {
    /// The kind of answer that the place takes.
    pub open spec fn kind(self) -> ReplyKind {
        match self {
            UnpackSlot::Tool => ReplyKind::Tool,
            UnpackSlot::Dest => ReplyKind::Facts,
            UnpackSlot::Created => ReplyKind::Outcome,
            UnpackSlot::Outcome => ReplyKind::Outcome,
        }
    }
}

impl PackLog {
    /// Whether the place holds no answer.
    pub open spec fn missing(self, slot: PackSlot) -> bool {
        match slot {
            PackSlot::Tool => self.tool is None,
            PackSlot::Outcome => self.outcome is None,
        }
    }

    /// The log with the answer in the place, where it is of the kind
    /// that the place takes.
    pub open spec fn filled(self, slot: PackSlot, reply: FsReply) -> PackLog {
        match (slot, reply) {
            (PackSlot::Tool, FsReply::Tool(found)) => PackLog { tool: Some(found), ..self },
            (PackSlot::Outcome, FsReply::Outcome(r)) => PackLog { outcome: Some(r), ..self },
            _ => self,
        }
    }

    /// Puts the answer in the place. An answer of another kind than
    /// the place takes is not put there, and the result says so.
    pub fn fill(&mut self, slot: PackSlot, reply: FsReply) -> (r: bool)
        ensures
            r == (reply.kind() == slot.kind()),
            *final(self) == old(self).filled(slot, reply),
    {
        match (slot, reply) {
            (PackSlot::Tool, FsReply::Tool(found)) => {
                self.tool = Some(found);
                true
            },
            (PackSlot::Outcome, FsReply::Outcome(r)) => {
                self.outcome = Some(r);
                true
            },
            _ => false,
        }
    }
}

impl UnpackLog {
    /// Whether the place holds no answer.
    pub open spec fn missing(self, slot: UnpackSlot) -> bool {
        match slot {
            UnpackSlot::Tool => self.tool is None,
            UnpackSlot::Dest => self.dest is None,
            UnpackSlot::Created => self.created is None,
            UnpackSlot::Outcome => self.outcome is None,
        }
    }

    /// The log with the answer in the place, where it is of the kind
    /// that the place takes.
    pub open spec fn filled(self, slot: UnpackSlot, reply: FsReply) -> UnpackLog {
        match (slot, reply) {
            (UnpackSlot::Tool, FsReply::Tool(found)) => UnpackLog { tool: Some(found), ..self },
            (UnpackSlot::Dest, FsReply::Facts(f)) => UnpackLog { dest: Some(f), ..self },
            (UnpackSlot::Created, FsReply::Outcome(r)) => UnpackLog { created: Some(r), ..self },
            (UnpackSlot::Outcome, FsReply::Outcome(r)) => UnpackLog { outcome: Some(r), ..self },
            _ => self,
        }
    }

    /// Puts the answer in the place. An answer of another kind than
    /// the place takes is not put there, and the result says so.
    pub fn fill(&mut self, slot: UnpackSlot, reply: FsReply) -> (r: bool)
        ensures
            r == (reply.kind() == slot.kind()),
            *final(self) == old(self).filled(slot, reply),
    {
        match (slot, reply) {
            (UnpackSlot::Tool, FsReply::Tool(found)) => {
                self.tool = Some(found);
                true
            },
            (UnpackSlot::Dest, FsReply::Facts(f)) => {
                self.dest = Some(f);
                true
            },
            (UnpackSlot::Created, FsReply::Outcome(r)) => {
                self.created = Some(r);
                true
            },
            (UnpackSlot::Outcome, FsReply::Outcome(r)) => {
                self.outcome = Some(r);
                true
            },
            _ => false,
        }
    }
}

/// The place of the answer that packing waits for, if it waits.
pub open spec fn pack_slot(log: PackLog) -> Option<PackSlot> {
    if log.tool is None {
        Some(PackSlot::Tool)
    } else if log.outcome is None {
        Some(PackSlot::Outcome)
    } else {
        None
    }
}

/// The place of the answer that unpacking waits for, if it waits.
pub open spec fn unpack_slot(log: UnpackLog) -> Option<UnpackSlot> {
    match log.tool {
        None => Some(UnpackSlot::Tool),
        Some(false) => if log.outcome is None {
            Some(UnpackSlot::Outcome)
        } else {
            None
        },
        Some(true) => match log.dest {
            None => Some(UnpackSlot::Dest),
            Some(facts) => if facts.kind == PathKind::Missing && log.created is None {
                Some(UnpackSlot::Created)
            } else if facts.kind == PathKind::Missing && log.created matches Some(Err(_)) {
                None
            } else if log.outcome is None {
                Some(UnpackSlot::Outcome)
            } else {
                None
            },
        },
    }
}

/// The level that packing runs at.
pub open spec fn level_or_default(level: Option<u32>) -> u32 {
    match level {
        Some(l) => l,
        None => DEFAULT_LEVEL,
    }
}

/// The command that shows whether the host has the `7z` program.
pub open spec fn probe_command() -> ToolCommandView {
    ToolCommandView { program: "7z"@, args: seq!["--help"@], dir: None }
}

/// The `7z` command that packs all that is in `input_dir` into `output`.
pub open spec fn pack_command(
    input_dir: Seq<char>,
    output: Seq<char>,
    password: Option<Seq<char>>,
    level: Option<u32>,
) -> ToolCommandView {
    let head = seq!["a"@, "-mx="@ + decimal_text(level_or_default(level) as nat)];
    let key = match password {
        Some(p) => seq!["-p"@ + p],
        None => seq![],
    };
    ToolCommandView { program: "7z"@, args: head + key + seq![output, "*"@], dir: Some(input_dir) }
}

/// The `7z` command that unpacks `input` into `output_dir`, overwriting
/// what is there.
pub open spec fn unpack_command(
    input: Seq<char>,
    output_dir: Seq<char>,
    password: Option<Seq<char>>,
) -> ToolCommandView {
    let head = seq!["x"@, input, "-o"@ + output_dir, "-aoa"@];
    let key = match password {
        Some(p) => seq!["-p"@ + p],
        None => seq![],
    };
    ToolCommandView { program: "7z"@, args: head + key, dir: None }
}

/// The request that packs in process.
pub open spec fn pack_in_process(
    input_dir: Seq<char>,
    output: Seq<char>,
    password: Option<Seq<char>>,
    level: Option<u32>,
) -> FsRequestView {
    FsRequestView::Compress { dir: input_dir, archive: output, password, level: level_or_default(level) }
}

/// Where packing stands after the answers in `log`.
pub open spec fn pack_step(
    input_dir: Seq<char>,
    output: Seq<char>,
    password: Option<Seq<char>>,
    level: Option<u32>,
    log: PackLog,
) -> Step<FsRequestView, Result<(), Seq<char>>> {
    match log.tool {
        None => Step::Need(FsRequestView::ProbeTool(probe_command())),
        Some(found) => match log.outcome {
            Some(Ok(())) => Step::Done(Ok(())),
            Some(Err(e)) => Step::Done(Err(e@)),
            None => if found {
                Step::Need(FsRequestView::RunTool(pack_command(input_dir, output, password, level)))
            } else {
                Step::Need(pack_in_process(input_dir, output, password, level))
            },
        },
    }
}

/// Where unpacking stands after the answers in `log`.
pub open spec fn unpack_step(
    input: Seq<char>,
    output_dir: Seq<char>,
    password: Option<Seq<char>>,
    log: UnpackLog,
) -> Step<FsRequestView, Result<(), Seq<char>>> {
    match log.tool {
        None => Step::Need(FsRequestView::ProbeTool(probe_command())),
        Some(false) => match log.outcome {
            Some(Ok(())) => Step::Done(Ok(())),
            Some(Err(e)) => Step::Done(Err(e@)),
            None => Step::Need(
                FsRequestView::Extract {
                    format: crate::effect::ArchiveFormat::SevenZip,
                    archive: input,
                    dest: output_dir,
                    password,
                },
            ),
        },
        Some(true) => match log.dest {
            None => Step::Need(FsRequestView::Inspect(output_dir)),
            Some(facts) => {
                let run = match log.outcome {
                    Some(Ok(())) => Step::Done(Ok(())),
                    Some(Err(e)) => Step::Done(Err(e@)),
                    None => Step::Need(
                        FsRequestView::RunTool(unpack_command(input, output_dir, password)),
                    ),
                };
                if facts.kind == PathKind::Missing {
                    match log.created {
                        None => Step::Need(FsRequestView::CreateDirAll(output_dir)),
                        Some(Err(e)) => Step::Done(Err(e@)),
                        Some(Ok(())) => run,
                    }
                } else {
                    run
                }
            },
        },
    }
}

/// The content of a step of packing or unpacking.
pub open spec fn step_view(s: Step<FsRequest, Result<(), String>>) -> Step<
    FsRequestView,
    Result<(), Seq<char>>,
> {
    match s {
        Step::Need(r) => Step::Need(r@),
        Step::Done(Ok(())) => Step::Done(Ok(())),
        Step::Done(Err(e)) => Step::Done(Err(e@)),
    }
}

/// The command that shows whether the host has the `7z` program.
pub fn is_7z_in_path() -> (r: ToolCommand)
    ensures
        r@ == probe_command(),
{
    let mut args: Vec<String> = Vec::new();
    args.push(String::from_str("--help"));
    let r = ToolCommand { program: String::from_str("7z"), args, dir: None };
    assert(texts(r.args@) =~= seq!["--help"@]);
    r
}

/// The `7z` command that packs all that is in `input_dir` into
/// `output_file_path`, at the given level or at the default one, and
/// encrypted where a password is given.
pub fn compress_7z_dir_external(
    input_dir: &str,
    output_file_path: &str,
    password: &Option<String>,
    compression_level: Option<u32>,
) -> (r: ToolCommand)
    ensures
        r@ == pack_command(input_dir@, output_file_path@, opt_text(*password), compression_level),
{
    let level: u32 = match compression_level {
        Some(l) => l,
        None => DEFAULT_LEVEL,
    };
    let mut args: Vec<String> = Vec::new();
    args.push(String::from_str("a"));
    args.push(join2("-mx=", decimal(level).as_str()));
    match password {
        Some(p) => {
            args.push(join2("-p", p.as_str()));
        },
        None => {},
    }
    args.push(String::from_str(output_file_path));
    args.push(String::from_str("*"));
    let r = ToolCommand {
        program: String::from_str("7z"),
        args,
        dir: Some(String::from_str(input_dir)),
    };
    assert(texts(r.args@) =~= pack_command(
        input_dir@,
        output_file_path@,
        opt_text(*password),
        compression_level,
    ).args);
    r
}

/// The request that packs `input_dir` into `output_file_path` in process.
pub fn compress_7z_dir_internal(
    input_dir: &str,
    output_file_path: &str,
    password: &Option<String>,
    compression_level: Option<u32>,
) -> (r: FsRequest)
    ensures
        r@ == pack_in_process(input_dir@, output_file_path@, opt_text(*password), compression_level),
{
    let level: u32 = match compression_level {
        Some(l) => l,
        None => DEFAULT_LEVEL,
    };
    FsRequest::Compress {
        dir: String::from_str(input_dir),
        archive: String::from_str(output_file_path),
        password: copy_opt(password),
        level,
    }
}

/// The `7z` command that unpacks `input_file_path` into `output_dir`.
pub fn decompress_7z_to_dir_external(
    input_file_path: &str,
    output_dir: &str,
    password: &Option<String>,
) -> (r: ToolCommand)
    ensures
        r@ == unpack_command(input_file_path@, output_dir@, opt_text(*password)),
{
    let mut args: Vec<String> = Vec::new();
    args.push(String::from_str("x"));
    args.push(String::from_str(input_file_path));
    args.push(join2("-o", output_dir));
    args.push(String::from_str("-aoa"));
    match password {
        Some(p) => {
            args.push(join2("-p", p.as_str()));
        },
        None => {},
    }
    let r = ToolCommand { program: String::from_str("7z"), args, dir: None };
    assert(texts(r.args@) =~= unpack_command(
        input_file_path@,
        output_dir@,
        opt_text(*password),
    ).args);
    r
}

fn finished(outcome: &Result<(), String>) -> (r: Step<FsRequest, Result<(), String>>)
    ensures
        step_view(r) == match *outcome {
            Ok(()) => Step::<FsRequestView, Result<(), Seq<char>>>::Done(Ok(())),
            Err(e) => Step::Done(Err(e@)),
        },
{
    match outcome {
        Ok(()) => Step::Done(Ok(())),
        Err(e) => Step::Done(Err(e.clone())),
    }
}

fn pack_next(
    input_dir: &str,
    output_file_path: &str,
    password: &Option<String>,
    compression_level: Option<u32>,
    log: &PackLog,
) -> (r: Step<FsRequest, Result<(), String>>)
    ensures
        step_view(r) == pack_step(
            input_dir@,
            output_file_path@,
            opt_text(*password),
            compression_level,
            *log,
        ),
{
    match log.tool {
        None => Step::Need(FsRequest::ProbeTool(is_7z_in_path())),
        Some(found) => match &log.outcome {
            Some(outcome) => finished(outcome),
            None => if found {
                Step::Need(
                    FsRequest::RunTool(
                        compress_7z_dir_external(
                            input_dir,
                            output_file_path,
                            password,
                            compression_level,
                        ),
                    ),
                )
            } else {
                Step::Need(
                    compress_7z_dir_internal(input_dir, output_file_path, password, compression_level),
                )
            },
        },
    }
}

fn unpack_next(
    input_file_path: &str,
    output_dir: &str,
    password: &Option<String>,
    log: &UnpackLog,
) -> (r: Step<FsRequest, Result<(), String>>)
    ensures
        step_view(r) == unpack_step(input_file_path@, output_dir@, opt_text(*password), *log),
{
    match log.tool {
        None => Step::Need(FsRequest::ProbeTool(is_7z_in_path())),
        Some(false) => match &log.outcome {
            Some(outcome) => finished(outcome),
            None => Step::Need(
                FsRequest::Extract {
                    format: crate::effect::ArchiveFormat::SevenZip,
                    archive: String::from_str(input_file_path),
                    dest: String::from_str(output_dir),
                    password: copy_opt(password),
                },
            ),
        },
        Some(true) => match &log.dest {
            None => Step::Need(FsRequest::Inspect(String::from_str(output_dir))),
            Some(facts) => {
                if facts.kind == PathKind::Missing {
                    match &log.created {
                        None => {
                            return Step::Need(FsRequest::CreateDirAll(String::from_str(output_dir)));
                        },
                        Some(Err(e)) => {
                            return Step::Done(Err(e.clone()));
                        },
                        Some(Ok(())) => {},
                    }
                }
                match &log.outcome {
                    Some(outcome) => finished(outcome),
                    None => Step::Need(
                        FsRequest::RunTool(
                            decompress_7z_to_dir_external(input_file_path, output_dir, password),
                        ),
                    ),
                }
            },
        },
    }
}


/// Whether the name of an entry of a zip archive names a directory: it
/// ends in a slash.
pub open spec fn names_directory(name: Seq<char>) -> bool {
    name.len() > 0 && name.last() == '/'
}

/// Whether the name of an entry of a zip archive names a directory,
/// which is created, and not a file, which is written.
pub fn is_directory_entry(name: &str) -> (r: bool)
    ensures
        r == names_directory(name@),
{
    let n: usize = name.unicode_len();
    n > 0 && name.get_char(n - 1) == '/'
}


/// The place of the answer that packing waits for, if it waits.
pub fn compress_slot(log: &PackLog) -> (r: Option<PackSlot>)
    ensures
        r == pack_slot(*log),
{
    if log.tool.is_none() {
        Some(PackSlot::Tool)
    } else if log.outcome.is_none() {
        Some(PackSlot::Outcome)
    } else {
        None
    }
}

/// The place of the answer that unpacking waits for, if it waits.
pub fn decompress_slot(log: &UnpackLog) -> (r: Option<UnpackSlot>)
    ensures
        r == unpack_slot(*log),
{
    match log.tool {
        None => Some(UnpackSlot::Tool),
        Some(false) => if log.outcome.is_none() {
            Some(UnpackSlot::Outcome)
        } else {
            None
        },
        Some(true) => match &log.dest {
            None => Some(UnpackSlot::Dest),
            Some(facts) => {
                if facts.kind == PathKind::Missing {
                    match &log.created {
                        None => {
                            return Some(UnpackSlot::Created);
                        },
                        Some(Err(_)) => {
                            return None;
                        },
                        Some(Ok(())) => {},
                    }
                }
                if log.outcome.is_none() {
                    Some(UnpackSlot::Outcome)
                } else {
                    None
                }
            },
        },
    }
}

/// Packing waits for an answer exactly while it has a request; the
/// answer is missing from its place, and is of the kind that the place
/// takes.
pub proof fn packing_asks_for_what_is_missing(
    input_dir: Seq<char>,
    output: Seq<char>,
    password: Option<Seq<char>>,
    level: Option<u32>,
    log: PackLog,
)
    ensures
        match pack_step(input_dir, output, password, level, log) {
            Step::Need(q) => pack_slot(log) matches Some(slot) && log.missing(slot) && slot.kind()
                == q.answer_kind(),
            Step::Done(_) => pack_slot(log) is None,
        },
{
}

/// Unpacking waits for an answer exactly while it has a request; the
/// answer is missing from its place, and is of the kind that the place
/// takes.
pub proof fn unpacking_asks_for_what_is_missing(
    input: Seq<char>,
    output_dir: Seq<char>,
    password: Option<Seq<char>>,
    log: UnpackLog,
)
    ensures
        match unpack_step(input, output_dir, password, log) {
            Step::Need(q) => unpack_slot(log) matches Some(slot) && log.missing(slot) && slot.kind()
                == q.answer_kind(),
            Step::Done(_) => unpack_slot(log) is None,
        },
{
}


/// Packs a directory into a 7z archive, with a password and at a level
/// where they are given: with the `7z` program where the host has it,
/// in process otherwise. The result is that of the packing.
pub fn compress_dir_to_7z(
    input_dir: &str,
    output_file_path: &str,
    password: &Option<String>,
    compression_level: Option<u32>,
    log: &PackLog,
) -> (r: Step<Ask<FsRequest, PackSlot>, Result<(), String>>)
    ensures
        step_view(r.bare()) == pack_step(
            input_dir@,
            output_file_path@,
            opt_text(*password),
            compression_level,
            *log,
        ),
        r.slot() == pack_slot(*log),
{
    proof {
        packing_asks_for_what_is_missing(
            input_dir@,
            output_file_path@,
            opt_text(*password),
            compression_level,
            *log,
        );
    }
    match pack_next(input_dir, output_file_path, password, compression_level, log) {
        Step::Need(request) => Step::Need(Ask { request, slot: compress_slot(log).unwrap() }),
        Step::Done(result) => Step::Done(result),
    }
}

/// Unpacks a 7z archive into a directory: with the `7z` program where
/// the host has it, after creating the directory where it is missing;
/// in process otherwise. The result is that of the unpacking, or the
/// failure to create the directory.
pub fn decompress_7z_to_dir(
    input_file_path: &str,
    output_dir: &str,
    password: &Option<String>,
    log: &UnpackLog,
) -> (r: Step<Ask<FsRequest, UnpackSlot>, Result<(), String>>)
    ensures
        step_view(r.bare()) == unpack_step(input_file_path@, output_dir@, opt_text(*password), *log),
        r.slot() == unpack_slot(*log),
{
    proof {
        unpacking_asks_for_what_is_missing(
            input_file_path@,
            output_dir@,
            opt_text(*password),
            *log,
        );
    }
    match unpack_next(input_file_path, output_dir, password, log) {
        Step::Need(request) => Step::Need(Ask { request, slot: decompress_slot(log).unwrap() }),
        Step::Done(result) => Step::Done(result),
    }
}


/// Whether the answers say that a 7z archive was unpacked: in process,
/// or by the tool into a directory that was there or could be created.
pub open spec fn unpacked(log: UnpackLog) -> bool {
    &&& log.outcome matches Some(Ok(_))
    &&& log.tool matches Some(found)
    &&& found ==> (log.dest matches Some(facts) && (facts.kind == PathKind::Missing
        ==> log.created matches Some(Ok(_))))
}

/// Unpacking ends well exactly when the answers say that the archive
/// was unpacked.
pub proof fn unpacking_succeeds_exactly_when(
    input: Seq<char>,
    output_dir: Seq<char>,
    password: Option<Seq<char>>,
    log: UnpackLog,
)
    ensures
        unpack_step(input, output_dir, password, log) == Step::<
            FsRequestView,
            Result<(), Seq<char>>,
        >::Done(Ok(())) <==> unpacked(log),
{
}

} // verus!
